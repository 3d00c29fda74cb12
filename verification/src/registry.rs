//! The plugins that the host has started.

use crate::error::{Error, ErrorView};
use vstd::prelude::*;

verus! {

/// A started plugin: the path of its program and the id of its process.
#[derive(Clone, Debug, PartialEq, Eq)]
pub struct PluginConn {
    pub path: String,
    pub pid: u32,
}

/// A [`PluginConn`] with its path as a sequence of characters.
pub struct PluginView {
    pub path: Seq<char>,
    pub pid: u32,
}

impl View for PluginConn {
    type V = PluginView;

    open spec fn view(&self) -> PluginView {
        PluginView { path: self.path@, pid: self.pid }
    }
}

/// The set of started plugins, in the order in which they were started. The
/// host does not watch over them: a record stays when its process ends.
#[derive(Clone, Debug, PartialEq, Eq)]
pub struct PluginSet {
    plugins: Vec<PluginConn>,
}

impl View for PluginSet {
    type V = Seq<PluginView>;

    closed spec fn view(&self) -> Seq<PluginView> {
        self.plugins@.map_values(|p: PluginConn| p@)
    }
}

/// What an attempt to start the program at `path` amounts to. `spawned` is
/// what the system answered: the id of the new process, or its words on why
/// there is none.
pub open spec fn spawn_outcome(path: Seq<char>, spawned: Result<u32, Seq<char>>) -> Result<
    PluginView,
    ErrorView,
> {
    match spawned {
        Ok(pid) => Ok(PluginView { path, pid }),
        Err(words) => Err(ErrorView::Spawn(words)),
    }
}

/// The words of a failed attempt, as a sequence of characters.
pub open spec fn spawn_view(spawned: Result<u32, String>) -> Result<u32, Seq<char>> {
    match spawned {
        Ok(pid) => Ok(pid),
        Err(words) => Err(words@),
    }
}

impl PluginConn {
    /// The record of the plugin at `path`, given what the system answered
    /// when it was asked to start that program.
    pub fn spawn(path: String, spawned: Result<u32, String>) -> (r: Result<PluginConn, Error>)
        ensures
            match r {
                Ok(conn) => spawn_outcome(path@, spawn_view(spawned)) == Ok::<_, ErrorView>(conn@),
                Err(e) => spawn_outcome(path@, spawn_view(spawned)) == Err::<PluginView, _>(e@),
            },
    {
        match spawned {
            Ok(pid) => Ok(PluginConn { path, pid }),
            Err(words) => Err(Error::Spawn(words)),
        }
    }
}

impl PluginSet {
    /// An empty set of plugins.
    pub fn new() -> (set: PluginSet)
        ensures
            set@ == Seq::<PluginView>::empty(),
    {
        PluginSet { plugins: Vec::new() }
    }

    /// The number of plugins in the set.
    pub fn len(&self) -> (n: usize)
        ensures
            n == self@.len(),
    {
        self.plugins.len()
    }

    /// The plugin that was started as the `i`-th, counted from 0.
    pub fn get(&self, i: usize) -> (r: Option<&PluginConn>)
        ensures
            match r {
                Some(conn) => i < self@.len() && conn@ == self@[i as int],
                None => i >= self@.len(),
            },
    {
        if i < self.plugins.len() {
            Some(&self.plugins[i])
        } else {
            None
        }
    }

    /// Adds the plugin at `path` to the set, given what the system answered
    /// when it was asked to start that program. Where no process was started
    /// the set stays as it was.
    pub fn start(&mut self, path: String, spawned: Result<u32, String>) -> (r: Result<(), Error>)
        ensures
            match spawn_outcome(path@, spawn_view(spawned)) {
                Ok(conn) => r is Ok && final(self)@ == old(self)@.push(conn),
                Err(e) => r is Err && r->Err_0@ == e && final(self)@ == old(self)@,
            },
    {
        match PluginConn::spawn(path, spawned) {
            Ok(conn) => {
                self.plugins.push(conn);
                assert(self@ == old(self)@.push(conn@));
                Ok(())
            },
            Err(e) => Err(e),
        }
    }
}

} // verus!
