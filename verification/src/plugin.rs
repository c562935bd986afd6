//! The configuration of the plugin: the game states in which its systems run.

use vstd::prelude::*;

verus! {

/// The main plugin.
pub struct View2DAnglePlugin<T> {
    /// List of game states that this plugin will run in. With an empty list
    /// it runs all the time.
    pub states: Vec<T>,
}

impl<T> Default for View2DAnglePlugin<T> {
    fn default() -> (plugin: Self)
        ensures
            plugin.states@ == Seq::<T>::empty(),
    {
        View2DAnglePlugin { states: Vec::new() }
    }
}

impl<T> View2DAnglePlugin<T> {
    /// A plugin whose systems run in the given states.
    pub fn new(states: Vec<T>) -> (plugin: Self)
        ensures
            plugin.states == states,
    {
        View2DAnglePlugin { states }
    }

    /// Whether the systems run whatever the state is: they do where no state
    /// was given.
    pub fn runs_always(&self) -> (always: bool)
        ensures
            always == (self.states@.len() == 0),
    {
        self.states.len() == 0
    }
}

/// The state type of a plugin that is bound to no state. Such a plugin
/// holds no value of it.
#[derive(Clone, Copy, Debug, Hash, PartialEq, Eq)]
pub enum DummyState {
    Unused,
}

/// Use this if you don't care to state and want this plugin's systems run all
/// the time.
pub struct View2DAnglePluginAnyState;

impl Default for View2DAnglePluginAnyState {
    fn default() -> Self {
        View2DAnglePluginAnyState
    }
}

impl View2DAnglePluginAnyState {
    /// The plugin that runs all the time.
    pub fn any() -> (plugin: View2DAnglePlugin<DummyState>)
        ensures
            plugin.states@ == Seq::<DummyState>::empty(),
    {
        View2DAnglePlugin::new(Vec::new())
    }
}

} // verus!
