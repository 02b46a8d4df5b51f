use vstd::prelude::*;

verus! {

/// One subsystem's pending-shutdown obligation: an optional diagnostic label
/// and an acknowledgment flag that only ever moves from `false` to `true`.
pub struct ExitListener {
    label: Option<&'static str>,
    ack: bool,
}

impl ExitListener {
    /// The diagnostic label; `None` marks an anonymous listener.
    pub closed spec fn label_spec(self) -> Option<&'static str> {
        self.label
    }

    /// Whether this listener has declared its shutdown work finished.
    pub closed spec fn acked(self) -> bool {
        self.ack
    }

    /// Creates an unacknowledged handle.
    pub fn new(label: Option<&'static str>) -> (r: ExitListener)
        ensures
            r.label_spec() == label,
            !r.acked(),
    {
        ExitListener { label, ack: false }
    }

    /// Marks the handle acknowledged; acknowledging twice is a no-op.
    pub fn acknowledge(&mut self)
        ensures
            final(self).acked(),
            final(self).label_spec() == old(self).label_spec(),
    {
        self.ack = true;
    }

    /// Observer used by the coordinator's all-acknowledged scan.
    pub fn is_acknowledged(&self) -> (r: bool)
        ensures
            r == self.acked(),
    {
        self.ack
    }

    /// The label as a copy, for reporting.
    pub fn label(&self) -> (r: Option<&'static str>)
        ensures
            r == self.label_spec(),
    {
        self.label
    }

    /// The name under which this listener appears in diagnostics: its own
    /// label, or an anonymous marker.
    pub fn display_label(&self) -> (r: &'static str)
        ensures
            (match self.label_spec() {
                Some(s) => r == s,
                None => r@ == "(anonymous)"@,
            }),
    {
        match self.label {
            Some(s) => s,
            None => "(anonymous)",
        }
    }
}

} // verus!
