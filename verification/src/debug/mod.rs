//! Diagnostic telemetry recorded with every tick.

use vstd::prelude::*;

pub mod renderables;

verus! {

/// What a `DebugInfo` holds, as plain text.
pub struct DebugView {
    /// The messages, in the order they were recorded.
    pub messages: Seq<Seq<char>>,
    /// The descriptions of shapes to draw, in the order they were recorded.
    pub renderables: Seq<Seq<char>>,
}

/// The text of every string of a list.
pub open spec fn texts(list: Seq<String>) -> Seq<Seq<char>> {
    Seq::new(list.len(), |i: int| list[i]@)
}

/// Telemetry of one tick: messages for a reader and descriptions of shapes
/// for a renderer. It is never read back by the simulation.
#[derive(Debug, Clone)]
pub struct DebugInfo {
    pub messages: Vec<String>,
    pub renderables: Vec<String>,
}

impl View for DebugInfo {
    type V = DebugView;

    open spec fn view(&self) -> DebugView {
        DebugView { messages: texts(self.messages@), renderables: texts(self.renderables@) }
    }
}

impl Default for DebugInfo {
    /// Telemetry with nothing recorded.
    fn default() -> (r: DebugInfo)
        ensures
            r@ == (DebugView { messages: Seq::empty(), renderables: Seq::empty() }),
    {
        let r = DebugInfo { messages: Vec::new(), renderables: Vec::new() };
        assert(r@.messages =~= Seq::<Seq<char>>::empty());
        assert(r@.renderables =~= Seq::<Seq<char>>::empty());
        r
    }
}

impl DebugInfo {
    /// Records a message after those already held.
    pub fn push_message(&mut self, message: String)
        ensures
            final(self)@ == (DebugView {
                messages: old(self)@.messages.push(message@),
                renderables: old(self)@.renderables,
            }),
    {
        self.messages.push(message);
        assert(self@.messages =~= old(self)@.messages.push(message@));
    }

    /// Records a shape description after those already held.
    pub fn push_renderable(&mut self, renderable: String)
        ensures
            final(self)@ == (DebugView {
                messages: old(self)@.messages,
                renderables: old(self)@.renderables.push(renderable@),
            }),
    {
        self.renderables.push(renderable);
        assert(self@.renderables =~= old(self)@.renderables.push(renderable@));
    }
}

} // verus!
