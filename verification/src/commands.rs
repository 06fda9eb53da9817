//! Commands addressed to the engine, and the sink that collects them.
//!
//! The view never talks to the engine or the platform directly: every
//! input handler takes a [`CommandSink`], appends the edit commands it
//! decides on, and counts the repaint requests it raises. The host drains
//! the sink, encodes each command for the wire, and performs the repaint.

use vstd::prelude::*;

verus! {

/// The parameters of a command: an empty sequence, a two-integer
/// sequence, or a map holding the characters to insert.
pub enum Params {
    Empty,
    Pair(usize, usize),
    Chars(String),
}

/// The mathematical value of [`Params`].
pub ghost enum ParamsView {
    Empty,
    Pair(int, int),
    Chars(Seq<char>),
}

impl View for Params {
    type V = ParamsView;

    open spec fn view(&self) -> ParamsView {
        match self {
            Params::Empty => ParamsView::Empty,
            Params::Pair(a, b) => ParamsView::Pair(*a as int, *b as int),
            Params::Chars(s) => ParamsView::Chars(s@),
        }
    }
}

/// One edit command: a method from the view's command alphabet, its
/// parameters, and the identity of the view it concerns.
pub struct Command {
    pub method: String,
    pub params: Params,
    pub view_id: String,
}

/// The mathematical value of a [`Command`].
pub ghost struct CommandView {
    pub method: Seq<char>,
    pub params: ParamsView,
    pub view_id: Seq<char>,
}

impl View for Command {
    type V = CommandView;

    open spec fn view(&self) -> CommandView {
        CommandView { method: self.method@, params: self.params@, view_id: self.view_id@ }
    }
}

impl DeepView for Command {
    type V = CommandView;

    open spec fn deep_view(&self) -> CommandView {
        self@
    }
}

/// The narrow capability the view is handed for one event: somewhere to
/// send edit commands, and a way to ask the platform for a repaint.
pub struct CommandSink {
    pub cmds: Vec<Command>,
    pub invalidations: u64,
}

/// The mathematical value of a [`CommandSink`]: the commands sent so far,
/// in order, and how many repaints were requested.
pub ghost struct SinkView {
    pub cmds: Seq<CommandView>,
    pub invalidations: int,
}

impl View for CommandSink {
    type V = SinkView;

    open spec fn view(&self) -> SinkView {
        SinkView { cmds: self.cmds.deep_view(), invalidations: self.invalidations as int }
    }
}

/// A repaint request on top of `n` earlier ones; the count stops at the
/// machine's limit rather than wrap.
pub open spec fn bumped(n: int) -> int {
    if n + 1 > u64::MAX {
        u64::MAX as int
    } else {
        n + 1
    }
}

impl CommandSink {
    /// A fresh sink: nothing sent, no repaint requested.
    pub fn new() -> (r: CommandSink)
        ensures
            r@.cmds == Seq::<CommandView>::empty(),
            r@.invalidations == 0,
    {
        let r = CommandSink { cmds: Vec::new(), invalidations: 0 };
        assert(r@.cmds =~= Seq::<CommandView>::empty());
        r
    }

    /// Send one edit command addressed to a view.
    pub fn send_edit_cmd(&mut self, method: &str, params: Params, view_id: &str)
        ensures
            final(self)@.cmds == old(self)@.cmds.push(
                CommandView { method: method@, params: params@, view_id: view_id@ },
            ),
            final(self)@.invalidations == old(self)@.invalidations,
    {
        let ghost pv = params@;
        let cmd = Command { method: method.to_owned(), params, view_id: view_id.to_owned() };
        self.cmds.push(cmd);
        assert(self@.cmds =~= old(self)@.cmds.push(
            CommandView { method: method@, params: pv, view_id: view_id@ },
        ));
    }

    /// Ask the platform to repaint the view.
    pub fn invalidate(&mut self)
        ensures
            final(self)@.cmds == old(self)@.cmds,
            final(self)@.invalidations == bumped(old(self)@.invalidations),
    {
        if self.invalidations < u64::MAX {
            self.invalidations = self.invalidations + 1;
        }
    }

    /// How many commands were sent so far.
    pub fn len(&self) -> (r: usize)
        ensures
            r == self@.cmds.len(),
    {
        self.cmds.len()
    }

    /// The command at index `i`.
    pub fn get(&self, i: usize) -> (r: &Command)
        requires
            i < self@.cmds.len(),
        ensures
            r@ == self@.cmds[i as int],
    {
        &self.cmds[i]
    }
}

} // verus!
