//! A small JSON object reader for token payloads: one flat object whose
//! members are strings without escape sequences, unsigned integers,
//! booleans, or `null`. Nested objects and arrays, and numbers that are
//! not unsigned integers, are scanned over and recorded as [`JsonValue::Other`].
//! Anything outside this profile makes the whole read fail.
//!
//! The reader is a byte-level state machine: the specification steps one
//! byte at a time, and the executable loop is proved to follow it.

use vstd::prelude::*;

verus! {

/// One member value of the object.
pub enum JsonValue {
    /// A string without escape sequences, as its raw bytes.
    Str(Vec<u8>),
    /// An unsigned integer.
    UInt(u64),
    Bool(bool),
    Null,
    /// A value the reader scans over without modelling it: a nested
    /// object or array, or a number that is not an unsigned integer.
    Other,
}

/// The mathematical value of a member.
#[verifier::ext_equal]
pub enum JsonValueV {
    Str(Seq<u8>),
    UInt(u64),
    Bool(bool),
    Null,
    Other,
}

impl View for JsonValue {
    type V = JsonValueV;

    open spec fn view(&self) -> JsonValueV {
        match self {
            JsonValue::Str(v) => JsonValueV::Str(v@),
            JsonValue::UInt(n) => JsonValueV::UInt(*n),
            JsonValue::Bool(b) => JsonValueV::Bool(*b),
            JsonValue::Null => JsonValueV::Null,
            JsonValue::Other => JsonValueV::Other,
        }
    }
}

/// The members of an object, in source order.
pub type JsonPairs = Vec<(Vec<u8>, JsonValue)>;

/// The mathematical value of the members.
pub open spec fn pairs_view(pairs: Seq<(Vec<u8>, JsonValue)>) -> Seq<(Seq<u8>, JsonValueV)> {
    pairs.map_values(|kv: (Vec<u8>, JsonValue)| (kv.0@, kv.1@))
}

/// Where in the object the reader stands.
#[derive(Clone, Copy)]
pub enum Phase {
    /// Before the opening brace.
    Start,
    /// After the opening brace: a key or the closing brace may follow.
    ExpectKeyOrEnd,
    /// Inside a key string.
    InKey,
    /// After a key string, before its colon.
    ExpectColon,
    /// After a colon, before the member's value.
    ExpectValue,
    /// Inside a string value.
    InStr,
    /// Inside an unsigned integer value.
    InNum { num: u64 },
    /// Inside a number that is not an unsigned integer.
    InNumLoose,
    /// Inside `true`, `false` or `null`; `kind` is the first byte and
    /// `pos` the next position to match.
    InLit { kind: u8, pos: u8 },
    /// Inside a nested object or array that is only scanned over.
    InComposite { depth: usize, in_str: bool },
    /// After a member's value: a comma or the closing brace may follow.
    ExpectCommaOrEnd,
    /// After a comma: a key must follow.
    ExpectKey,
    /// After the closing brace.
    Done,
    /// The input left the accepted profile.
    Failed,
}

/// The reader's whole state.
pub struct ObjReader {
    pub phase: Phase,
    pub key: Vec<u8>,
    pub buf: Vec<u8>,
    pub pairs: JsonPairs,
}

/// The reader's state, mathematically.
#[verifier::ext_equal]
pub struct ObjStateV {
    pub phase: Phase,
    pub key: Seq<u8>,
    pub buf: Seq<u8>,
    pub pairs: Seq<(Seq<u8>, JsonValueV)>,
}

impl View for ObjReader {
    type V = ObjStateV;

    open spec fn view(&self) -> ObjStateV {
        ObjStateV { phase: self.phase, key: self.key@, buf: self.buf@, pairs: pairs_view(self.pairs@) }
    }
}

/// JSON whitespace.
pub open spec fn spec_is_ws(b: u8) -> bool {
    b == 0x20 || b == 0x09 || b == 0x0a || b == 0x0d
}

/// An ASCII decimal digit.
pub open spec fn spec_is_digit(b: u8) -> bool {
    ('0' as u8) <= b <= ('9' as u8)
}

/// A byte that may continue a number outside the unsigned-integer profile.
pub open spec fn spec_is_loose_num(b: u8) -> bool {
    spec_is_digit(b) || b == ('.' as u8) || b == ('e' as u8) || b == ('E' as u8) || b == (
    '+' as u8) || b == ('-' as u8)
}

/// How many bytes the literal starting with `kind` has.
pub open spec fn spec_lit_len(kind: u8) -> u8 {
    if kind == ('f' as u8) {
        5
    } else {
        4
    }
}

/// The byte at `pos` of the literal starting with `kind`.
pub open spec fn spec_lit_byte(kind: u8, pos: u8) -> u8 {
    if kind == ('t' as u8) {
        if pos == 1 {
            'r' as u8
        } else if pos == 2 {
            'u' as u8
        } else {
            'e' as u8
        }
    } else if kind == ('f' as u8) {
        if pos == 1 {
            'a' as u8
        } else if pos == 2 {
            'l' as u8
        } else if pos == 3 {
            's' as u8
        } else {
            'e' as u8
        }
    } else {
        if pos == 1 {
            'u' as u8
        } else {
            'l' as u8
        }
    }
}

/// The value the literal starting with `kind` denotes.
pub open spec fn spec_lit_value(kind: u8) -> JsonValueV {
    if kind == ('t' as u8) {
        JsonValueV::Bool(true)
    } else if kind == ('f' as u8) {
        JsonValueV::Bool(false)
    } else {
        JsonValueV::Null
    }
}

/// The state after a member's value ended and `b` follows it.
pub open spec fn spec_after_value(st: ObjStateV, b: u8) -> ObjStateV {
    if spec_is_ws(b) {
        ObjStateV { phase: Phase::ExpectCommaOrEnd, ..st }
    } else if b == (',' as u8) {
        ObjStateV { phase: Phase::ExpectKey, ..st }
    } else if b == ('}' as u8) {
        ObjStateV { phase: Phase::Done, ..st }
    } else {
        ObjStateV { phase: Phase::Failed, ..st }
    }
}

/// One step of the reader: the state after consuming byte `b`.
pub open spec fn spec_step(st: ObjStateV, b: u8) -> ObjStateV {
    match st.phase {
        Phase::Start => {
            if spec_is_ws(b) {
                st
            } else if b == ('{' as u8) {
                ObjStateV { phase: Phase::ExpectKeyOrEnd, ..st }
            } else {
                ObjStateV { phase: Phase::Failed, ..st }
            }
        },
        Phase::ExpectKeyOrEnd => {
            if spec_is_ws(b) {
                st
            } else if b == ('"' as u8) {
                ObjStateV { phase: Phase::InKey, key: Seq::empty(), ..st }
            } else if b == ('}' as u8) {
                ObjStateV { phase: Phase::Done, ..st }
            } else {
                ObjStateV { phase: Phase::Failed, ..st }
            }
        },
        Phase::InKey => {
            if b == ('"' as u8) {
                ObjStateV { phase: Phase::ExpectColon, ..st }
            } else if b == ('\\' as u8) || b < 0x20 {
                ObjStateV { phase: Phase::Failed, ..st }
            } else {
                ObjStateV { key: st.key.push(b), ..st }
            }
        },
        Phase::ExpectColon => {
            if spec_is_ws(b) {
                st
            } else if b == (':' as u8) {
                ObjStateV { phase: Phase::ExpectValue, ..st }
            } else {
                ObjStateV { phase: Phase::Failed, ..st }
            }
        },
        Phase::ExpectValue => {
            if spec_is_ws(b) {
                st
            } else if b == ('"' as u8) {
                ObjStateV { phase: Phase::InStr, buf: Seq::empty(), ..st }
            } else if spec_is_digit(b) {
                ObjStateV { phase: Phase::InNum { num: (b - ('0' as u8)) as u64 }, ..st }
            } else if b == ('-' as u8) {
                ObjStateV { phase: Phase::InNumLoose, ..st }
            } else if b == ('t' as u8) || b == ('f' as u8) || b == ('n' as u8) {
                ObjStateV { phase: Phase::InLit { kind: b, pos: 1 }, ..st }
            } else if b == ('{' as u8) || b == ('[' as u8) {
                ObjStateV { phase: Phase::InComposite { depth: 1, in_str: false }, ..st }
            } else {
                ObjStateV { phase: Phase::Failed, ..st }
            }
        },
        Phase::InStr => {
            if b == ('"' as u8) {
                ObjStateV {
                    phase: Phase::ExpectCommaOrEnd,
                    key: Seq::empty(),
                    buf: Seq::empty(),
                    pairs: st.pairs.push((st.key, JsonValueV::Str(st.buf))),
                }
            } else if b == ('\\' as u8) || b < 0x20 {
                ObjStateV { phase: Phase::Failed, ..st }
            } else {
                ObjStateV { buf: st.buf.push(b), ..st }
            }
        },
        Phase::InNum { num } => {
            if spec_is_digit(b) {
                if num * 10 + (b - ('0' as u8)) > u64::MAX {
                    ObjStateV { phase: Phase::Failed, ..st }
                } else {
                    ObjStateV {
                        phase: Phase::InNum { num: (num * 10 + (b - ('0' as u8))) as u64 },
                        ..st
                    }
                }
            } else if spec_is_loose_num(b) {
                ObjStateV { phase: Phase::InNumLoose, ..st }
            } else {
                spec_after_value(
                    ObjStateV {
                        key: Seq::empty(),
                        pairs: st.pairs.push((st.key, JsonValueV::UInt(num))),
                        ..st
                    },
                    b,
                )
            }
        },
        Phase::InNumLoose => {
            if spec_is_loose_num(b) {
                st
            } else {
                spec_after_value(
                    ObjStateV {
                        key: Seq::empty(),
                        pairs: st.pairs.push((st.key, JsonValueV::Other)),
                        ..st
                    },
                    b,
                )
            }
        },
        Phase::InLit { kind, pos } => {
            if pos < spec_lit_len(kind) && b == spec_lit_byte(kind, pos) {
                if pos + 1 == spec_lit_len(kind) {
                    ObjStateV {
                        phase: Phase::ExpectCommaOrEnd,
                        key: Seq::empty(),
                        pairs: st.pairs.push((st.key, spec_lit_value(kind))),
                        ..st
                    }
                } else {
                    ObjStateV { phase: Phase::InLit { kind, pos: (pos + 1) as u8 }, ..st }
                }
            } else {
                ObjStateV { phase: Phase::Failed, ..st }
            }
        },
        Phase::InComposite { depth, in_str } => {
            if in_str {
                if b == ('"' as u8) {
                    ObjStateV { phase: Phase::InComposite { depth, in_str: false }, ..st }
                } else if b == ('\\' as u8) || b < 0x20 {
                    ObjStateV { phase: Phase::Failed, ..st }
                } else {
                    st
                }
            } else {
                if b == ('"' as u8) {
                    ObjStateV { phase: Phase::InComposite { depth, in_str: true }, ..st }
                } else if b == ('{' as u8) || b == ('[' as u8) {
                    if depth == usize::MAX {
                        ObjStateV { phase: Phase::Failed, ..st }
                    } else {
                        ObjStateV {
                            phase: Phase::InComposite { depth: (depth + 1) as usize, in_str },
                            ..st
                        }
                    }
                } else if b == ('}' as u8) || b == (']' as u8) {
                    if depth <= 1 {
                        ObjStateV {
                            phase: Phase::ExpectCommaOrEnd,
                            key: Seq::empty(),
                            pairs: st.pairs.push((st.key, JsonValueV::Other)),
                            ..st
                        }
                    } else {
                        ObjStateV {
                            phase: Phase::InComposite { depth: (depth - 1) as usize, in_str },
                            ..st
                        }
                    }
                } else {
                    st
                }
            }
        },
        Phase::ExpectCommaOrEnd => spec_after_value(st, b),
        Phase::ExpectKey => {
            if spec_is_ws(b) {
                st
            } else if b == ('"' as u8) {
                ObjStateV { phase: Phase::InKey, key: Seq::empty(), ..st }
            } else {
                ObjStateV { phase: Phase::Failed, ..st }
            }
        },
        Phase::Done => {
            if spec_is_ws(b) {
                st
            } else {
                ObjStateV { phase: Phase::Failed, ..st }
            }
        },
        Phase::Failed => st,
    }
}

/// The reader's initial state.
pub open spec fn spec_init() -> ObjStateV {
    ObjStateV { phase: Phase::Start, key: Seq::empty(), buf: Seq::empty(), pairs: Seq::empty() }
}

/// The state after consuming `s` from position `i` onward, starting in `st`.
pub open spec fn spec_run(s: Seq<u8>, i: int, st: ObjStateV) -> ObjStateV
    decreases s.len() - i,
{
    if i < 0 || i >= s.len() {
        st
    } else {
        spec_run(s, i + 1, spec_step(st, s[i]))
    }
}

/// The members of `s` read as one flat JSON object, when `s` stays within
/// the accepted profile and is consumed whole.
pub open spec fn spec_parse_object(s: Seq<u8>) -> Option<Seq<(Seq<u8>, JsonValueV)>> {
    let end = spec_run(s, 0, spec_init());
    if end.phase is Done {
        Some(end.pairs)
    } else {
        None
    }
}

/// Reads `bytes` as one flat JSON object.
pub fn parse_json_object(bytes: &[u8]) -> (r: Option<JsonPairs>)
    ensures
        match r {
            Some(pairs) => spec_parse_object(bytes@) == Some(pairs_view(pairs@)),
            None => spec_parse_object(bytes@) is None,
        },
{
    broadcast use vstd::seq_lib::group_seq_lib_default;

    let mut st = ObjReader {
        phase: Phase::Start,
        key: Vec::new(),
        buf: Vec::new(),
        pairs: Vec::new(),
    };
    assert(st@ =~~= spec_init());
    let n = bytes.len();
    let mut i: usize = 0;
    while i < n
        invariant
            0 <= i <= n,
            n == bytes@.len(),
            spec_run(bytes@, i as int, st@) == spec_run(bytes@, 0, spec_init()),
        decreases n - i,
    {
        let b = bytes[i];
        let ghost prev = st@;
        match st.phase {
            Phase::Start => {
                if is_ws(b) {
                } else if b == ('{' as u8) {
                    st.phase = Phase::ExpectKeyOrEnd;
                } else {
                    st.phase = Phase::Failed;
                }
            },
            Phase::ExpectKeyOrEnd => {
                if is_ws(b) {
                } else if b == ('"' as u8) {
                    st.phase = Phase::InKey;
                    st.key = Vec::new();
                } else if b == ('}' as u8) {
                    st.phase = Phase::Done;
                } else {
                    st.phase = Phase::Failed;
                }
            },
            Phase::InKey => {
                if b == ('"' as u8) {
                    st.phase = Phase::ExpectColon;
                } else if b == ('\\' as u8) || b < 0x20 {
                    st.phase = Phase::Failed;
                } else {
                    st.key.push(b);
                }
            },
            Phase::ExpectColon => {
                if is_ws(b) {
                } else if b == (':' as u8) {
                    st.phase = Phase::ExpectValue;
                } else {
                    st.phase = Phase::Failed;
                }
            },
            Phase::ExpectValue => {
                if is_ws(b) {
                } else if b == ('"' as u8) {
                    st.phase = Phase::InStr;
                    st.buf = Vec::new();
                } else if is_digit(b) {
                    st.phase = Phase::InNum { num: (b - ('0' as u8)) as u64 };
                } else if b == ('-' as u8) {
                    st.phase = Phase::InNumLoose;
                } else if b == ('t' as u8) || b == ('f' as u8) || b == ('n' as u8) {
                    st.phase = Phase::InLit { kind: b, pos: 1 };
                } else if b == ('{' as u8) || b == ('[' as u8) {
                    st.phase = Phase::InComposite { depth: 1, in_str: false };
                } else {
                    st.phase = Phase::Failed;
                }
            },
            Phase::InStr => {
                if b == ('"' as u8) {
                    let mut key: Vec<u8> = Vec::new();
                    core::mem::swap(&mut key, &mut st.key);
                    let mut buf: Vec<u8> = Vec::new();
                    core::mem::swap(&mut buf, &mut st.buf);
                    st.pairs.push((key, JsonValue::Str(buf)));
                    st.phase = Phase::ExpectCommaOrEnd;
                } else if b == ('\\' as u8) || b < 0x20 {
                    st.phase = Phase::Failed;
                } else {
                    st.buf.push(b);
                }
            },
            Phase::InNum { num } => {
                if is_digit(b) {
                    match num.checked_mul(10) {
                        Some(m) => match m.checked_add((b - ('0' as u8)) as u64) {
                            Some(v) => {
                                st.phase = Phase::InNum { num: v };
                            },
                            None => {
                                st.phase = Phase::Failed;
                            },
                        },
                        None => {
                            st.phase = Phase::Failed;
                        },
                    }
                } else if is_loose_num(b) {
                    st.phase = Phase::InNumLoose;
                } else {
                    let mut key: Vec<u8> = Vec::new();
                    core::mem::swap(&mut key, &mut st.key);
                    st.pairs.push((key, JsonValue::UInt(num)));
                    apply_delimiter(&mut st, b);
                }
            },
            Phase::InNumLoose => {
                if is_loose_num(b) {
                } else {
                    let mut key: Vec<u8> = Vec::new();
                    core::mem::swap(&mut key, &mut st.key);
                    st.pairs.push((key, JsonValue::Other));
                    apply_delimiter(&mut st, b);
                }
            },
            Phase::InLit { kind, pos } => {
                if pos < lit_len(kind) && b == lit_byte(kind, pos) {
                    if pos + 1 == lit_len(kind) {
                        let mut key: Vec<u8> = Vec::new();
                        core::mem::swap(&mut key, &mut st.key);
                        let value = lit_value(kind);
                        st.pairs.push((key, value));
                        st.phase = Phase::ExpectCommaOrEnd;
                    } else {
                        st.phase = Phase::InLit { kind, pos: pos + 1 };
                    }
                } else {
                    st.phase = Phase::Failed;
                }
            },
            Phase::InComposite { depth, in_str } => {
                if in_str {
                    if b == ('"' as u8) {
                        st.phase = Phase::InComposite { depth, in_str: false };
                    } else if b == ('\\' as u8) || b < 0x20 {
                        st.phase = Phase::Failed;
                    }
                } else {
                    if b == ('"' as u8) {
                        st.phase = Phase::InComposite { depth, in_str: true };
                    } else if b == ('{' as u8) || b == ('[' as u8) {
                        if depth == usize::MAX {
                            st.phase = Phase::Failed;
                        } else {
                            st.phase = Phase::InComposite { depth: depth + 1, in_str };
                        }
                    } else if b == ('}' as u8) || b == (']' as u8) {
                        if depth <= 1 {
                            let mut key: Vec<u8> = Vec::new();
                            core::mem::swap(&mut key, &mut st.key);
                            st.pairs.push((key, JsonValue::Other));
                            st.phase = Phase::ExpectCommaOrEnd;
                        } else {
                            st.phase = Phase::InComposite { depth: depth - 1, in_str };
                        }
                    }
                }
            },
            Phase::ExpectCommaOrEnd => {
                apply_delimiter(&mut st, b);
            },
            Phase::ExpectKey => {
                if is_ws(b) {
                } else if b == ('"' as u8) {
                    st.phase = Phase::InKey;
                    st.key = Vec::new();
                } else {
                    st.phase = Phase::Failed;
                }
            },
            Phase::Done => {
                if is_ws(b) {
                } else {
                    st.phase = Phase::Failed;
                }
            },
            Phase::Failed => {},
        }
        assert(st@ =~~= spec_step(prev, b));
        i = i + 1;
    }
    if matches!(st.phase, Phase::Done) {
        Some(st.pairs)
    } else {
        None
    }
}

/// Moves the reader past a member's value when `b` follows it.
fn apply_delimiter(st: &mut ObjReader, b: u8)
    ensures
        *final(st) == (ObjReader { phase: spec_after_value(old(st)@, b).phase, ..*old(st) }),
        spec_after_value(old(st)@, b) == (ObjStateV {
            phase: spec_after_value(old(st)@, b).phase,
            ..old(st)@
        }),
{
    if is_ws(b) {
        st.phase = Phase::ExpectCommaOrEnd;
    } else if b == (',' as u8) {
        st.phase = Phase::ExpectKey;
    } else if b == ('}' as u8) {
        st.phase = Phase::Done;
    } else {
        st.phase = Phase::Failed;
    }
}

fn is_ws(b: u8) -> (r: bool)
    ensures
        r == spec_is_ws(b),
{
    b == 0x20 || b == 0x09 || b == 0x0a || b == 0x0d
}

fn is_digit(b: u8) -> (r: bool)
    ensures
        r == spec_is_digit(b),
{
    ('0' as u8) <= b && b <= ('9' as u8)
}

fn is_loose_num(b: u8) -> (r: bool)
    ensures
        r == spec_is_loose_num(b),
{
    is_digit(b) || b == ('.' as u8) || b == ('e' as u8) || b == ('E' as u8) || b == ('+' as u8)
        || b == ('-' as u8)
}

fn lit_len(kind: u8) -> (r: u8)
    ensures
        r == spec_lit_len(kind),
{
    if kind == ('f' as u8) {
        5
    } else {
        4
    }
}

fn lit_byte(kind: u8, pos: u8) -> (r: u8)
    ensures
        r == spec_lit_byte(kind, pos),
{
    if kind == ('t' as u8) {
        if pos == 1 {
            'r' as u8
        } else if pos == 2 {
            'u' as u8
        } else {
            'e' as u8
        }
    } else if kind == ('f' as u8) {
        if pos == 1 {
            'a' as u8
        } else if pos == 2 {
            'l' as u8
        } else if pos == 3 {
            's' as u8
        } else {
            'e' as u8
        }
    } else {
        if pos == 1 {
            'u' as u8
        } else {
            'l' as u8
        }
    }
}

fn lit_value(kind: u8) -> (r: JsonValue)
    ensures
        r@ == spec_lit_value(kind),
{
    if kind == ('t' as u8) {
        JsonValue::Bool(true)
    } else if kind == ('f' as u8) {
        JsonValue::Bool(false)
    } else {
        JsonValue::Null
    }
}

} // verus!
