use vstd::prelude::*;

use crate::decimal::{decimal, decimal_text};

verus! {

/// One transaction-log notification: the slot it was executed in, its
/// signature, its error if it failed, and its log messages in order.
#[derive(Debug, PartialEq, Eq)]
pub struct LogNotification {
    pub slot: u64,
    pub signature: String,
    pub err: Option<String>,
    pub logs: Vec<String>,
}

/// "Success", or the transaction's error.
pub open spec fn status_text(err: Option<String>) -> Seq<char> {
    match err {
        Some(e) => e@,
        None => "Success"@,
    }
}

impl LogNotification {
    /// The lines printed for this notification, in order.
    pub open spec fn lines_spec(&self) -> Seq<Seq<char>> {
        seq![
            "Transaction executed in slot "@ + decimal(self.slot as nat) + ":"@,
            "  Signature: "@ + self.signature@ + ":"@,
            "  Status: "@ + status_text(self.err),
            "  Log Messages:"@,
        ] + Seq::new(self.logs@.len(), |i: int| "    "@ + self.logs@[i]@)
    }

    /// The lines to print for this notification: slot, signature, status,
    /// then each log message indented, in arrival order.
    pub fn lines(&self) -> (r: Vec<String>)
        ensures
            r@.len() == self.lines_spec().len(),
            forall|i: int| 0 <= i < r@.len() ==> (#[trigger] r@[i])@ == self.lines_spec()[i],
    {
        let mut out: Vec<String> = Vec::new();
        let mut slot_line = String::from_str("Transaction executed in slot ");
        let slot = decimal_text(self.slot);
        slot_line.append(slot.as_str());
        slot_line.append(":");
        out.push(slot_line);
        let mut signature_line = String::from_str("  Signature: ");
        signature_line.append(self.signature.as_str());
        signature_line.append(":");
        out.push(signature_line);
        let mut status_line = String::from_str("  Status: ");
        match &self.err {
            Some(e) => status_line.append(e.as_str()),
            None => status_line.append("Success"),
        }
        out.push(status_line);
        out.push(String::from_str("  Log Messages:"));
        let mut i: usize = 0;
        while i < self.logs.len()
            invariant
                i <= self.logs@.len(),
                out@.len() == 4 + i,
                forall|j: int| 0 <= j < 4 ==> (#[trigger] out@[j])@ == self.lines_spec()[j],
                forall|j: int| 4 <= j < 4 + i ==> (#[trigger] out@[j])@ == self.lines_spec()[j],
            decreases self.logs@.len() - i,
        {
            let mut line = String::from_str("    ");
            line.append(self.logs[i].as_str());
            out.push(line);
            i = i + 1;
        }
        out
    }
}

} // verus!
