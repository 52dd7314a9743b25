//! The file format produced on the file route, and its round trip.
//!
//! Every event appends one record `"<label> <timestamp>\r\n<message>\r\n"`
//! to the destination file.  As long as timestamps and messages contain no
//! CRLF pair, the concatenation of the emitted records parses back into
//! exactly the emitted records, in emission order.

use vstd::prelude::*;

use crate::logger::spec_compose;
use crate::severity::{lemma_label_chars, Severity};

verus! {

/// One record as it appears in a destination file.
pub ghost struct SpecRecord {
    pub sev: Severity,
    pub time: Seq<char>,
    pub msg: Seq<char>,
}

/// The CRLF separator.
pub open spec fn crlf() -> Seq<char> {
    seq!['\r', '\n']
}

/// `s` contains no CRLF pair.
pub open spec fn crlf_free(s: Seq<char>) -> bool {
    forall|i: int| 0 <= i < s.len() - 1 ==> !(#[trigger] s[i] == '\r' && s[i + 1] == '\n')
}

/// A record is well formed when neither its timestamp nor its message
/// contains a CRLF pair; only such records keep the file format unambiguous.
pub open spec fn wf_record(r: SpecRecord) -> bool {
    crlf_free(r.time) && crlf_free(r.msg)
}

/// The line a record renders to.
pub open spec fn record_line(r: SpecRecord) -> Seq<char> {
    spec_compose(r.sev.spec_label(), r.time, r.msg)
}

/// The file content produced by a sequence of records, flushed in order.
pub open spec fn emit(rs: Seq<SpecRecord>) -> Seq<char>
    decreases rs.len(),
{
    if rs.len() == 0 {
        Seq::empty()
    } else {
        record_line(rs[0]) + emit(rs.drop_first())
    }
}

/// The index of the first CRLF pair in `s`, or -1 when there is none.
pub open spec fn first_crlf(s: Seq<char>) -> int
    decreases s.len(),
{
    if s.len() < 2 {
        -1
    } else if s[0] == '\r' && s[1] == '\n' {
        0
    } else if first_crlf(s.drop_first()) < 0 {
        -1
    } else {
        1 + first_crlf(s.drop_first())
    }
}

/// In `p + CRLF + rest` with `p` free of CRLF pairs, the first CRLF pair
/// sits exactly at the end of `p`.
pub proof fn lemma_first_crlf_after_prefix(p: Seq<char>, rest: Seq<char>)
    requires
        crlf_free(p),
    ensures
        first_crlf(p + crlf() + rest) == p.len(),
    decreases p.len(),
{
    let s = p + crlf() + rest;
    if p.len() == 0 {
        assert(s[0] == '\r');
        assert(s[1] == '\n');
    } else {
        if p.len() == 1 {
            assert(s[1] == '\r');
        } else {
            assert(s[0] == p[0]);
            assert(s[1] == p[1]);
            assert(!(p[0] == '\r' && p[1] == '\n'));
        }
        assert(!(s[0] == '\r' && s[1] == '\n'));
        let q = p.drop_first();
        assert(crlf_free(q)) by {
            assert forall|i: int| 0 <= i < q.len() - 1 implies !(#[trigger] q[i] == '\r' && q[i
                + 1] == '\n') by {
                assert(q[i] == p[i + 1]);
                assert(q[i + 1] == p[i + 2]);
            }
        }
        lemma_first_crlf_after_prefix(q, rest);
        assert(s.drop_first() =~= q + crlf() + rest);
        assert(first_crlf(s.drop_first()) == q.len());
        assert(first_crlf(s) == 1 + q.len());
    }
}

/// `pre` is a prefix of `s`.
pub open spec fn is_prefix(pre: Seq<char>, s: Seq<char>) -> bool {
    pre.len() <= s.len() && forall|i: int| 0 <= i < pre.len() ==> pre[i] == #[trigger] s[i]
}

/// A record header matches a severity when it is that severity's label
/// followed by a space.
pub open spec fn header_matches(h: Seq<char>, sev: Severity) -> bool {
    let l = sev.spec_label();
    &&& h.len() >= l.len() + 1
    &&& is_prefix(l, h)
    &&& h[l.len() as int] == ' '
}

/// The severity whose label opens the header, if any.  The five labels
/// differ pairwise in their second character, so at most one matches.
pub open spec fn severity_of_header(h: Seq<char>) -> Option<Severity> {
    if header_matches(h, Severity::Trace) {
        Some(Severity::Trace)
    } else if header_matches(h, Severity::Debug) {
        Some(Severity::Debug)
    } else if header_matches(h, Severity::Info) {
        Some(Severity::Info)
    } else if header_matches(h, Severity::Warn) {
        Some(Severity::Warn)
    } else if header_matches(h, Severity::Error) {
        Some(Severity::Error)
    } else {
        None
    }
}

/// Parses the first record of `s`, yielding it and the remaining content.
pub open spec fn parse_one(s: Seq<char>) -> Option<(SpecRecord, Seq<char>)> {
    let h = first_crlf(s);
    if h < 0 {
        None
    } else {
        let header = s.take(h);
        let after = s.skip(h + 2);
        match severity_of_header(header) {
            Some(sev) => {
                let time = header.skip(sev.spec_label().len() as int + 1);
                let m = first_crlf(after);
                if m < 0 {
                    None
                } else {
                    Some((SpecRecord { sev, time, msg: after.take(m) }, after.skip(m + 2)))
                }
            },
            None => None,
        }
    }
}

/// Parses a whole destination file back into records.
pub open spec fn parse_records(s: Seq<char>) -> Option<Seq<SpecRecord>>
    decreases s.len(),
{
    if s.len() == 0 {
        Some(Seq::empty())
    } else {
        match parse_one(s) {
            Some((r, rest)) => {
                if rest.len() < s.len() {
                    match parse_records(rest) {
                        Some(rs) => Some(seq![r] + rs),
                        None => None,
                    }
                } else {
                    None
                }
            },
            None => None,
        }
    }
}

/// A header whose second character differs from a label's second character
/// does not match that label.
proof fn lemma_header_mismatch(p: Seq<char>, sev: Severity)
    requires
        p.len() >= 2,
        p[1] != sev.spec_label()[1],
    ensures
        !header_matches(p, sev),
{
    if header_matches(p, sev) {
        assert(sev.spec_label()[1] == p[1]);
    }
}

/// The header `label + ' ' + time` resolves to exactly its own severity.
pub proof fn lemma_header_of(sev: Severity, time: Seq<char>)
    ensures
        severity_of_header(sev.spec_label() + seq![' '] + time) == Some(sev),
{
    let l = sev.spec_label();
    let p = l + seq![' '] + time;
    assert(header_matches(p, sev)) by {
        assert forall|i: int| 0 <= i < l.len() implies l[i] == #[trigger] p[i] by {}
        assert(p[l.len() as int] == ' ');
    }
    assert(p[1] == l[1]);
    match sev {
        Severity::Trace => {
        },
        Severity::Debug => {
            lemma_header_mismatch(p, Severity::Trace);
        },
        Severity::Info => {
            lemma_header_mismatch(p, Severity::Trace);
            lemma_header_mismatch(p, Severity::Debug);
        },
        Severity::Warn => {
            lemma_header_mismatch(p, Severity::Trace);
            lemma_header_mismatch(p, Severity::Debug);
            lemma_header_mismatch(p, Severity::Info);
        },
        Severity::Error => {
            lemma_header_mismatch(p, Severity::Trace);
            lemma_header_mismatch(p, Severity::Debug);
            lemma_header_mismatch(p, Severity::Info);
            lemma_header_mismatch(p, Severity::Warn);
        },
    }
}

/// Law: a destination file holding any sequence of well-formed records, in
/// emission order, parses back into exactly those records, in that order.
pub proof fn lemma_emit_parse_round_trip(rs: Seq<SpecRecord>)
    requires
        forall|i: int| 0 <= i < rs.len() ==> wf_record(#[trigger] rs[i]),
    ensures
        parse_records(emit(rs)) == Some(rs),
    decreases rs.len(),
{
    if rs.len() == 0 {
        assert(emit(rs).len() == 0);
        assert(rs =~= Seq::<SpecRecord>::empty());
    } else {
        let r0 = rs[0];
        let rest = rs.drop_first();
        assert(wf_record(r0));
        let l = r0.sev.spec_label();
        let head = l + seq![' '] + r0.time;
        let tail2 = r0.msg + crlf() + emit(rest);
        let s = emit(rs);
        assert(s == record_line(r0) + emit(rest));
        assert(s =~= head + crlf() + tail2);
        assert(crlf_free(head)) by {
            lemma_label_chars(r0.sev);
            assert forall|i: int| 0 <= i < head.len() - 1 implies !(#[trigger] head[i] == '\r'
                && head[i + 1] == '\n') by {
                if i < l.len() {
                    assert(head[i] == l[i]);
                    assert(head[i] != '\r');
                } else if i == l.len() {
                    assert(head[i] == ' ');
                } else {
                    assert(head[i] == r0.time[i - l.len() - 1]);
                    assert(head[i + 1] == r0.time[i - l.len()]);
                    assert(!(r0.time[i - l.len() - 1] == '\r' && r0.time[i - l.len()] == '\n'));
                }
            }
        }
        lemma_first_crlf_after_prefix(head, tail2);
        assert(first_crlf(s) == head.len());
        assert(s.take(head.len() as int) =~= head);
        assert(s.skip(head.len() as int + 2) =~= tail2);
        lemma_header_of(r0.sev, r0.time);
        assert(severity_of_header(head) == Some(r0.sev));
        assert(head.skip(l.len() as int + 1) =~= r0.time);
        lemma_first_crlf_after_prefix(r0.msg, emit(rest));
        assert(first_crlf(tail2) == r0.msg.len());
        assert(tail2.take(r0.msg.len() as int) =~= r0.msg);
        assert(tail2.skip(r0.msg.len() as int + 2) =~= emit(rest));
        let parsed = parse_one(s);
        assert(parsed is Some);
        let pt = parsed->0;
        let pr = pt.0;
        let prest = pt.1;
        assert(pr == r0);
        assert(prest == emit(rest));
        assert(forall|i: int| 0 <= i < rest.len() ==> wf_record(#[trigger] rest[i])) by {
            assert forall|i: int| 0 <= i < rest.len() implies wf_record(#[trigger] rest[i]) by {
                assert(rest[i] == rs[i + 1]);
            }
        }
        lemma_emit_parse_round_trip(rest);
        assert(s.len() == record_line(r0).len() + emit(rest).len());
        assert(record_line(r0).len() > 0);
        assert(parse_records(s) == Some(seq![r0] + rest));
        assert(seq![r0] + rest =~= rs);
    }
}

/// Law: two events flushed in order produce exactly the first composed line
/// followed by the second, nothing lost and nothing interleaved.
pub proof fn lemma_two_records_concatenate(a: SpecRecord, b: SpecRecord)
    ensures
        emit(seq![a, b]) == record_line(a) + record_line(b),
{
    let rs = seq![a, b];
    let tail = rs.drop_first();
    let none = tail.drop_first();
    assert(none.len() == 0);
    assert(emit(none) == Seq::<char>::empty());
    assert(tail[0] == b);
    assert(emit(tail) == record_line(b) + emit(none));
    assert(rs[0] == a);
    assert(emit(rs) == record_line(a) + emit(tail));
    assert(emit(rs) =~= record_line(a) + record_line(b));
}

} // verus!

