//! Session-level decisions: the reader thread's exit sentinel, the
//! device-liveness poller, and the log tail.
//!
//! The driver owns the thread, the queue, the timer and the serial-port
//! probe; every decision they act on is made here.

use vstd::prelude::*;
use vstd::string::StringExecFns;

use crate::text::{chars_of, eq_lit, lines_of, spec_lines, spec_trim, trim_of};

verus! {

/// The sentinel message on which the reader thread stops feeding the queue.
pub open spec fn exit_sentinel() -> Seq<char> {
    "{\"text\":\"exit\"}"@
}

/// Whether an inbound message, ignoring surrounding whitespace, is the
/// reader's exit sentinel.
pub fn is_exit_sentinel(text: &str) -> (r: bool)
    ensures
        r == (spec_trim(text@) == exit_sentinel()),
{
    let t = trim_of(text);
    let v = chars_of(t.as_str());
    eq_lit(&v, "{\"text\":\"exit\"}")
}

/// Whether the session's associated port is among the ports the probe
/// found.
pub fn is_device_connected(port: &str, available: &Vec<String>) -> (r: bool)
    ensures
        r == available.deep_view().contains(port@),
{
    let mut i: usize = 0;
    let n = available.len();
    while i < n
        invariant
            i <= n == available@.len(),
            forall|j: int| 0 <= j < i ==> available.deep_view()[j] != port@,
        decreases n - i,
    {
        let v = chars_of(available[i].as_str());
        if eq_lit(&v, port) {
            proof {
                assert(available.deep_view()[i as int] == port@);
            }
            return true;
        }
        i = i + 1;
    }
    proof {
        assert(forall|j: int| 0 <= j < available.deep_view().len() ==> available.deep_view()[j]
            != port@);
    }
    false
}

/// One poll of the liveness loop: a connect or disconnect notification is
/// emitted only when the observed state differs from the last reported one —
/// never on a poll that observes no transition — and the reported state
/// then follows the observation.
pub fn poll_transition(last: Option<bool>, connected: bool) -> (r: (Option<bool>, Option<bool>))
    ensures
        last == Some(connected) ==> r.0 is None,
        last != Some(connected) ==> r.0 == Some(connected),
        r.1 == Some(connected),
{
    match last {
        Some(prev) => {
            if prev == connected {
                (None, Some(connected))
            } else {
                (Some(connected), Some(connected))
            }
        },
        None => (Some(connected), Some(connected)),
    }
}

/// A line that holds more than whitespace.
pub open spec fn nonblank() -> spec_fn(Seq<char>) -> bool {
    |l: Seq<char>| spec_trim(l).len() > 0
}

/// The log lines to relay after a growth of the log file: the lines of the
/// content past the last relayed character position, blank lines dropped.
pub open spec fn spec_log_tail(content: Seq<char>, last_position: int) -> Seq<Seq<char>> {
    let tail = if last_position <= 0 {
        content
    } else if last_position <= content.len() {
        content.skip(last_position)
    } else {
        Seq::empty()
    };
    spec_lines(tail).filter(nonblank())
}

/// Collects the log lines to relay after a growth of the log file.
pub fn log_tail(content: &str, last_position: usize) -> (r: Vec<String>)
    ensures
        r.deep_view() == spec_log_tail(content@, last_position as int),
{
    let v = chars_of(content);
    let n = v.len();
    let start = if last_position > n {
        n
    } else {
        last_position
    };
    let tail = content.substring_char(start, n);
    proof {
        if last_position <= 0 {
            assert(tail@ =~= content@);
        } else if last_position <= n {
            assert(tail@ =~= content@.skip(last_position as int));
        } else {
            assert(tail@ =~= Seq::<char>::empty());
        }
    }
    let lines = lines_of(tail);
    let ghost lv = spec_lines(tail@);
    let mut r: Vec<String> = Vec::new();
    let mut i: usize = 0;
    let m = lines.len();
    proof {
        reveal(Seq::filter);
        assert(lv.take(0) =~= Seq::<Seq<char>>::empty());
        assert(r.deep_view() =~= lv.take(0).filter(nonblank()));
    }
    while i < m
        invariant
            i <= m == lines@.len(),
            lines.deep_view() == lv,
            r.deep_view() == lv.take(i as int).filter(nonblank()),
        decreases m - i,
    {
        let ghost r_old = r.deep_view();
        let line = &lines[i];
        proof {
            assert(lv[i as int] == lines@[i as int]@);
        }
        let t = trim_of(line.as_str());
        if !t.as_str().is_empty() {
            r.push(line.clone());
        }
        i = i + 1;
        proof {
            reveal(Seq::filter);
            let pred = nonblank();
            assert(lv.take(i as int).drop_last() =~= lv.take(i - 1));
            assert(lv.take(i as int).last() == lv[i - 1]);
            if pred(lv[i - 1]) {
                assert(r.deep_view() =~= r_old.push(lv[i - 1]));
            }
            assert(lv.take(i as int).filter(pred) =~= r.deep_view());
        }
    }
    proof {
        assert(lv.take(m as int) =~= lv);
    }
    r
}

} // verus!
