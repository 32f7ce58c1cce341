//! Per-device metadata parsing: the kernel exposes one small text per block
//! device, newline-separated `key=value` lines carrying at least MAJOR,
//! MINOR and DEVNAME. The bootstrap reads these to recreate the block device
//! nodes a full operating system would have populated at boot, which must
//! happen before any device — the archive and target disks included — can be
//! opened by path.

use crate::guest::{makedev_spec, mknod_request, MknodRequest, MknodRequestV, NODE_MODE_BITS,
    S_IFBLK};
use crate::seqtools::{chars_eq, digits_val, is_usize_digits, parse_usize, split_chars, split_on};
use vstd::prelude::*;
use vstd::string::{StrSliceExecFns, StringExecFns};

verus! {

/// What one per-device metadata text denotes: the device name and the two
/// device numbers, after folding all its lines.
pub struct UeventV {
    pub devname: Seq<char>,
    pub major: int,
    pub minor: int,
}

/// The record before any line has been read: empty name, zero numbers.
pub open spec fn empty_uevent() -> UeventV {
    UeventV { devname: Seq::empty(), major: 0, minor: 0 }
}

/// Folds one line into the record. A line that is not exactly `key=value`
/// is skipped, an unknown key is ignored, and a later line overrides an
/// earlier one; but a MAJOR or MINOR value that is not a decimal number
/// fitting a `usize` rejects the whole text.
pub open spec fn apply_uevent_line(st: UeventV, line: Seq<char>) -> Option<UeventV> {
    let parts = split_on(line, '=');
    if parts.len() != 2 {
        Some(st)
    } else if parts[0] == "MAJOR"@ {
        if is_usize_digits(parts[1]) {
            Some(UeventV { devname: st.devname, major: digits_val(parts[1]), minor: st.minor })
        } else {
            None
        }
    } else if parts[0] == "MINOR"@ {
        if is_usize_digits(parts[1]) {
            Some(UeventV { devname: st.devname, major: st.major, minor: digits_val(parts[1]) })
        } else {
            None
        }
    } else if parts[0] == "DEVNAME"@ {
        Some(UeventV { devname: parts[1], major: st.major, minor: st.minor })
    } else {
        Some(st)
    }
}

/// The record a sequence of lines denotes, folded front to back from the
/// defaults.
pub open spec fn uevent_fold(lines: Seq<Seq<char>>) -> Option<UeventV>
    decreases lines.len(),
{
    if lines.len() == 0 {
        Some(empty_uevent())
    } else {
        match uevent_fold(lines.drop_last()) {
            Some(st) => apply_uevent_line(st, lines.last()),
            None => None,
        }
    }
}

/// What a whole per-device metadata text denotes.
pub open spec fn parse_uevent_spec(s: Seq<char>) -> Option<UeventV> {
    uevent_fold(split_on(s, '\n'))
}

/// Once a malformed line has rejected a prefix of the text, no later line
/// repairs it.
proof fn lemma_uevent_fold_none(lines: Seq<Seq<char>>, n: int)
    requires
        0 <= n <= lines.len(),
        uevent_fold(lines.subrange(0, n)) is None,
    ensures
        uevent_fold(lines) is None,
    decreases lines.len() - n,
{
    if n == lines.len() {
        assert(lines.subrange(0, n) =~= lines);
    } else {
        assert(lines.subrange(0, n + 1).drop_last() =~= lines.subrange(0, n));
        assert(uevent_fold(lines.subrange(0, n + 1)) is None);
        lemma_uevent_fold_none(lines, n + 1);
    }
}

/// Collects the characters of a string slice.
fn str_to_chars(s: &str) -> (r: Vec<char>)
    ensures
        r@ == s@,
{
    let n = s.unicode_len();
    let mut out: Vec<char> = Vec::new();
    let mut i: usize = 0;
    while i < n
        invariant
            0 <= i <= n,
            n == s@.len(),
            out@ == s@.subrange(0, i as int),
        decreases n - i,
    {
        let c = s.get_char(i);
        out.push(c);
        proof {
            assert(out@ =~= s@.subrange(0, i + 1));
        }
        i = i + 1;
    }
    proof {
        assert(s@.subrange(0, n as int) =~= s@);
    }
    out
}

/// Relies on `String`'s `FromIterator<char>` implementation: collecting
/// characters yields the string of exactly those characters.
#[verifier::external_body]
fn chars_to_string(v: &Vec<char>) -> (r: String)
    ensures
        r@ == v@,
{
    v.iter().collect()
}

/// Parses one per-device metadata text into its device name, major number
/// and minor number. Later lines override earlier ones and absent keys keep
/// their defaults (empty name, zero); the text is rejected exactly when some
/// `MAJOR=` or `MINOR=` line does not carry a decimal number that fits a
/// `usize`.
pub fn parse_uevent(s: &str) -> (r: Option<(String, usize, usize)>)
    ensures
        r is Some <==> parse_uevent_spec(s@) is Some,
        r matches Some(t) ==> parse_uevent_spec(s@) == Some(
            UeventV { devname: t.0@, major: t.1 as int, minor: t.2 as int },
        ),
{
    let chars = str_to_chars(s);
    let lines = split_chars(&chars, '\n');
    let ghost all_lines = lines.deep_view();

    let mut key_major: Vec<char> = Vec::new();
    key_major.push('M');
    key_major.push('A');
    key_major.push('J');
    key_major.push('O');
    key_major.push('R');
    let mut key_minor: Vec<char> = Vec::new();
    key_minor.push('M');
    key_minor.push('I');
    key_minor.push('N');
    key_minor.push('O');
    key_minor.push('R');
    let mut key_devname: Vec<char> = Vec::new();
    key_devname.push('D');
    key_devname.push('E');
    key_devname.push('V');
    key_devname.push('N');
    key_devname.push('A');
    key_devname.push('M');
    key_devname.push('E');
    proof {
        reveal_strlit("MAJOR");
        reveal_strlit("MINOR");
        reveal_strlit("DEVNAME");
        assert(key_major@ =~= "MAJOR"@);
        assert(key_minor@ =~= "MINOR"@);
        assert(key_devname@ =~= "DEVNAME"@);
    }

    let mut devname: Vec<char> = Vec::new();
    let mut major: usize = 0;
    let mut minor: usize = 0;
    let mut i: usize = 0;
    proof {
        assert(all_lines.subrange(0, 0) =~= Seq::<Seq<char>>::empty());
        assert(uevent_fold(all_lines.subrange(0, 0)) == Some(empty_uevent()));
        assert(devname@ =~= Seq::<char>::empty());
    }
    while i < lines.len()
        invariant
            0 <= i <= lines@.len(),
            all_lines == lines.deep_view(),
            all_lines.len() == lines@.len(),
            all_lines == split_on(chars@, '\n'),
            chars@ == s@,
            key_major@ == "MAJOR"@,
            key_minor@ == "MINOR"@,
            key_devname@ == "DEVNAME"@,
            uevent_fold(all_lines.subrange(0, i as int)) == Some(
                UeventV { devname: devname@, major: major as int, minor: minor as int },
            ),
        decreases lines@.len() - i,
    {
        let ghost st = UeventV { devname: devname@, major: major as int, minor: minor as int };
        let ghost prefix = all_lines.subrange(0, i as int);
        let ghost next_prefix = all_lines.subrange(0, i + 1);
        let ghost line_view = all_lines[i as int];
        proof {
            assert(next_prefix.drop_last() =~= prefix);
            assert(next_prefix.last() == line_view);
            assert(line_view == lines@[i as int].deep_view());
        }
        let line = &lines[i];
        proof {
            assert(line_view =~= line@);
        }
        let mut parts = split_chars(line, '=');
        let ghost parts_view = split_on(line_view, '=');
        proof {
            assert(parts.deep_view() == parts_view);
            assert(parts@.len() == parts_view.len());
        }
        if parts.len() == 2 {
            let ghost parts_seq = parts@;
            let value = parts.pop().unwrap();
            let key = parts.pop().unwrap();
            proof {
                assert(value == parts_seq[1]);
                assert(parts_seq.subrange(0, 1).last() == parts_seq[0]);
                assert(key == parts_seq[0]);
                assert(parts_view[0] == parts_seq[0].deep_view());
                assert(parts_view[1] == parts_seq[1].deep_view());
                assert(key@ =~= parts_view[0]);
                assert(value@ =~= parts_view[1]);
            }
            if chars_eq(&key, &key_major) {
                match parse_usize(&value) {
                    Some(v) => {
                        major = v;
                        proof {
                            assert(uevent_fold(next_prefix) == Some(
                                UeventV {
                                    devname: devname@,
                                    major: major as int,
                                    minor: minor as int,
                                },
                            ));
                        }
                    },
                    None => {
                        proof {
                            assert(apply_uevent_line(st, line_view) is None);
                            assert(uevent_fold(next_prefix) is None);
                            lemma_uevent_fold_none(all_lines, i + 1);
                        }
                        return None;
                    },
                }
            } else if chars_eq(&key, &key_minor) {
                match parse_usize(&value) {
                    Some(v) => {
                        minor = v;
                        proof {
                            assert(uevent_fold(next_prefix) == Some(
                                UeventV {
                                    devname: devname@,
                                    major: major as int,
                                    minor: minor as int,
                                },
                            ));
                        }
                    },
                    None => {
                        proof {
                            assert(apply_uevent_line(st, line_view) is None);
                            assert(uevent_fold(next_prefix) is None);
                            lemma_uevent_fold_none(all_lines, i + 1);
                        }
                        return None;
                    },
                }
            } else if chars_eq(&key, &key_devname) {
                devname = value;
                proof {
                    assert(uevent_fold(next_prefix) == Some(
                        UeventV { devname: devname@, major: major as int, minor: minor as int },
                    ));
                }
            } else {
                proof {
                    assert(apply_uevent_line(st, line_view) == Some(st));
                    assert(uevent_fold(next_prefix) == Some(st));
                }
            }
        } else {
            proof {
                assert(apply_uevent_line(st, line_view) == Some(st));
                assert(uevent_fold(next_prefix) == Some(st));
            }
        }
        i = i + 1;
    }
    proof {
        assert(all_lines.subrange(0, all_lines.len() as int) =~= all_lines);
    }
    let name = chars_to_string(&devname);
    Some((name, major, minor))
}

/// The device node one metadata text calls for: a block-special node at
/// /dev/<name>, numbered from the (truncated) major and minor values.
pub open spec fn blockdev_node_view(u: UeventV) -> MknodRequestV {
    MknodRequestV {
        path: "/dev/"@ + u.devname,
        mode: S_IFBLK | NODE_MODE_BITS,
        dev: makedev_spec(u.major as u32, u.minor as u32),
    }
}

/// The node plan for a set of metadata texts, in order; rejected as soon as
/// any one text is malformed.
pub open spec fn blockdev_plan_spec(texts: Seq<Seq<char>>) -> Option<Seq<MknodRequestV>>
    decreases texts.len(),
{
    if texts.len() == 0 {
        Some(Seq::empty())
    } else {
        match (blockdev_plan_spec(texts.drop_last()), parse_uevent_spec(texts.last())) {
            (Some(plan), Some(u)) => Some(plan.push(blockdev_node_view(u))),
            _ => None,
        }
    }
}

/// Plans the block device nodes for all enumerated devices, one per
/// metadata text and in the same order; fails exactly when some text is
/// malformed.
pub fn blockdev_requests(uevents: &Vec<String>) -> (r: Option<Vec<MknodRequest>>)
    ensures
        r is Some <==> blockdev_plan_spec(uevents.deep_view()) is Some,
        r matches Some(v) ==> blockdev_plan_spec(uevents.deep_view()) == Some(v.deep_view()),
{
    let ghost texts = uevents.deep_view();
    let mut out: Vec<MknodRequest> = Vec::new();
    let mut i: usize = 0;
    proof {
        assert(texts.subrange(0, 0) =~= Seq::<Seq<char>>::empty());
        assert(blockdev_plan_spec(texts.subrange(0, 0)) == Some(out.deep_view()));
    }
    while i < uevents.len()
        invariant
            0 <= i <= uevents@.len(),
            texts == uevents.deep_view(),
            texts.len() == uevents@.len(),
            blockdev_plan_spec(texts.subrange(0, i as int)) == Some(out.deep_view()),
        decreases uevents@.len() - i,
    {
        let ghost prefix = texts.subrange(0, i as int);
        let ghost next_prefix = texts.subrange(0, i + 1);
        proof {
            assert(next_prefix.drop_last() =~= prefix);
            assert(next_prefix.last() == texts[i as int]);
            assert(texts[i as int] == uevents@[i as int]@);
        }
        match parse_uevent(uevents[i].as_str()) {
            None => {
                proof {
                    assert(blockdev_plan_spec(next_prefix) is None);
                    lemma_blockdev_plan_none(texts, i + 1);
                }
                return None;
            },
            Some((name, major, minor)) => {
                let mut path = "/dev/".to_owned();
                path.append(name.as_str());
                let m32: u32 = #[verifier::truncate] (major as u32);
                let n32: u32 = #[verifier::truncate] (minor as u32);
                let node = mknod_request(path, m32, n32, S_IFBLK);
                out.push(node);
                proof {
                    let u = parse_uevent_spec(texts[i as int]).unwrap();
                    assert(node@ == blockdev_node_view(u));
                    assert(out.deep_view() =~= blockdev_plan_spec(prefix).unwrap().push(
                        blockdev_node_view(u),
                    ));
                    assert(blockdev_plan_spec(next_prefix) == Some(out.deep_view()));
                }
            },
        }
        i = i + 1;
    }
    proof {
        assert(texts.subrange(0, texts.len() as int) =~= texts);
    }
    Some(out)
}

/// Once one malformed text has rejected a prefix of the set, no later text
/// repairs it.
proof fn lemma_blockdev_plan_none(texts: Seq<Seq<char>>, n: int)
    requires
        0 <= n <= texts.len(),
        blockdev_plan_spec(texts.subrange(0, n)) is None,
    ensures
        blockdev_plan_spec(texts) is None,
    decreases texts.len() - n,
{
    if n == texts.len() {
        assert(texts.subrange(0, n) =~= texts);
    } else {
        assert(texts.subrange(0, n + 1).drop_last() =~= texts.subrange(0, n));
        assert(blockdev_plan_spec(texts.subrange(0, n + 1)) is None);
        lemma_blockdev_plan_none(texts, n + 1);
    }
}

} // verus!
