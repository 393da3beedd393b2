//! Configuration as plain key–value pairs, read once at startup.
//!
//! The process that gathers the pairs (an environment, a file) is outside
//! this crate; this type only looks values up and reads them as booleans or
//! as comma-separated lists of numbers. A list keeps exactly its entries
//! that parse, in order; surrounding whitespace is ignored.

use vstd::prelude::*;
use vstd::string::{StrSliceExecFns, StringExecFns};

use crate::text::{parse_u64, spec_parse_u64, spec_trim, str_eq, trim};

verus! {

/// Why reading a configuration key failed.
#[derive(Debug)]
pub enum ConfigError {
    /// The key has no value.
    MissingKey { key: String },
    /// The key's value holds no usable list entry.
    EmptyList { key: String },
}

impl ConfigError {
    /// The one-line description of this failure.
    pub open spec fn spec_message(&self) -> Seq<char> {
        match self {
            ConfigError::MissingKey { key } => "required config key '"@ + key@ + "'"@,
            ConfigError::EmptyList { key } => "required config key '"@ + key@
                + "' is missing or empty"@,
        }
    }

    /// Renders the one-line description of this failure.
    pub fn message(&self) -> (r: String)
        ensures
            r@ == self.spec_message(),
    {
        match self {
            ConfigError::MissingKey { key } => "required config key '".to_owned().concat(
                key.as_str(),
            ).concat("'"),
            ConfigError::EmptyList { key } => "required config key '".to_owned().concat(
                key.as_str(),
            ).concat("' is missing or empty"),
        }
    }
}

/// The value stored under `key`, if any: the first pair that carries the
/// key wins.
pub open spec fn spec_lookup(kv: Seq<(String, String)>, key: Seq<char>) -> Option<Seq<char>>
    decreases kv.len(),
{
    if kv.len() == 0 {
        None
    } else if kv[0].0@ == key {
        Some(kv[0].1@)
    } else {
        spec_lookup(kv.skip(1), key)
    }
}

/// What a value parses as when read as a boolean: exactly `true` or
/// `false`, nothing else.
pub open spec fn spec_parse_bool(v: Seq<char>) -> Option<bool> {
    if v == "true"@ {
        Some(true)
    } else if v == "false"@ {
        Some(false)
    } else {
        None
    }
}

/// The index of the first comma of `s`, or its length when it has none.
pub open spec fn first_comma(s: Seq<char>) -> int
    decreases s.len(),
{
    if s.len() == 0 {
        0
    } else if s[0] == ',' {
        0
    } else {
        1 + first_comma(s.skip(1))
    }
}

/// `first_comma` names the position before which no comma stands and at
/// which one stands, or the end.
proof fn lemma_first_comma_at(s: Seq<char>, i: int)
    requires
        0 <= i <= s.len(),
        forall|j: int| 0 <= j < i ==> s[j] != ',',
        i == s.len() || s[i] == ',',
    ensures
        first_comma(s) == i,
    decreases i,
{
    if i == 0 {
    } else {
        assert(s[0] != ',');
        let rest = s.skip(1);
        assert forall|j: int| 0 <= j < i - 1 implies rest[j] != ',' by {
            assert(rest[j] == s[j + 1]);
        }
        if i < s.len() {
            assert(rest[i - 1] == s[i]);
        }
        lemma_first_comma_at(rest, i - 1);
    }
}

/// `s` cut at every comma, in order; a text without commas is one segment,
/// commas at the ends yield empty segments.
pub open spec fn spec_split(s: Seq<char>) -> Seq<Seq<char>>
    decreases s.len(),
{
    let idx = first_comma(s);
    if idx < 0 || idx >= s.len() {
        seq![s]
    } else {
        seq![s.take(idx)] + spec_split(s.skip(idx + 1))
    }
}

/// The numbers the given segments yield: each segment trimmed and parsed,
/// keeping exactly those that parse, in order.
pub open spec fn spec_parse_segments(segs: Seq<Seq<char>>) -> Seq<u64>
    decreases segs.len(),
{
    if segs.len() == 0 {
        Seq::empty()
    } else {
        spec_parse_segments(segs.drop_last()) + (match spec_parse_u64(spec_trim(segs.last())) {
            Some(v) => seq![v],
            None => Seq::empty(),
        })
    }
}

/// What a single segment yields.
pub open spec fn spec_segment_item(seg: Seq<char>) -> Seq<u64> {
    match spec_parse_u64(spec_trim(seg)) {
        Some(v) => seq![v],
        None => Seq::empty(),
    }
}

/// A single segment parses to exactly its item.
proof fn lemma_parse_segments_singleton(seg: Seq<char>)
    ensures
        spec_parse_segments(seq![seg]) == spec_segment_item(seg),
{
    let s = seq![seg];
    assert(s.last() == seg);
    assert(s.drop_last() =~= Seq::<Seq<char>>::empty());
    assert(spec_parse_segments(Seq::<Seq<char>>::empty()) == Seq::<u64>::empty());
    assert(Seq::<u64>::empty() + spec_segment_item(seg) =~= spec_segment_item(seg));
}

/// Parsing segments distributes over concatenation.
proof fn lemma_parse_segments_concat(a: Seq<Seq<char>>, b: Seq<Seq<char>>)
    ensures
        spec_parse_segments(a + b) == spec_parse_segments(a) + spec_parse_segments(b),
    decreases b.len(),
{
    if b.len() == 0 {
        assert(a + b =~= a);
        assert(spec_parse_segments(a) + spec_parse_segments(b) =~= spec_parse_segments(a));
    } else {
        lemma_parse_segments_concat(a, b.drop_last());
        assert((a + b).drop_last() =~= a + b.drop_last());
        assert((a + b).last() == b.last());
        assert(spec_parse_segments(a + b) =~= spec_parse_segments(a) + spec_parse_segments(b));
    }
}

/// What a value parses as when read as a list: its comma-separated
/// segments, trimmed, keeping exactly the numbers that parse, in order.
pub open spec fn spec_parse_list(v: Seq<char>) -> Seq<u64> {
    spec_parse_segments(spec_split(v))
}

/// The list stored under `key`: empty when the key has no value.
pub open spec fn spec_config_list(kv: Seq<(String, String)>, key: Seq<char>) -> Seq<u64> {
    match spec_lookup(kv, key) {
        None => Seq::empty(),
        Some(v) => spec_parse_list(v),
    }
}

/// Appends the number one trimmed segment yields, if it yields one.
fn push_segment(out: &mut Vec<u64>, seg: &str)
    ensures
        final(out)@ == old(out)@ + spec_segment_item(seg@),
{
    let trimmed = trim(seg);
    match parse_u64(trimmed) {
        Some(v) => {
            out.push(v);
        },
        None => {
            proof {
                assert(out@ =~= out@ + Seq::<u64>::empty());
            }
        },
    }
}

/// The configuration: immutable key–value pairs, gathered once before the
/// bots start.
pub struct Config {
    kv: Vec<(String, String)>,
}

impl View for Config {
    type V = Seq<(String, String)>;

    closed spec fn view(&self) -> Seq<(String, String)> {
        self.kv@
    }
}

impl Config {
    /// Wraps the gathered pairs.
    pub fn new(pairs: Vec<(String, String)>) -> (r: Config)
        ensures
            r@ == pairs@,
    {
        Config { kv: pairs }
    }

    /// Looks a key up; the first pair that carries it wins.
    pub fn optional(&self, key: &str) -> (r: Option<&str>)
        ensures
            (r is Some) == (spec_lookup(self@, key@) is Some),
            r matches Some(v) ==> spec_lookup(self@, key@) == Some(v@),
    {
        let n = self.kv.len();
        let mut i: usize = 0;
        proof {
            assert(self.kv@.skip(0) =~= self.kv@);
        }
        while i < n
            invariant
                i <= n,
                n == self.kv.len(),
                spec_lookup(self.kv@, key@) == spec_lookup(self.kv@.skip(i as int), key@),
            decreases n - i,
        {
            let entry = &self.kv[i];
            proof {
                assert(self.kv@.skip(i as int)[0] == self.kv@[i as int]);
                assert(self.kv@.skip(i as int).skip(1) =~= self.kv@.skip(i as int + 1));
            }
            if str_eq(entry.0.as_str(), key) {
                return Some(entry.1.as_str());
            }
            i += 1;
        }
        None
    }

    /// Looks a key up, or says which key was missing.
    pub fn required(&self, key: &str) -> (r: Result<&str, ConfigError>)
        ensures
            (r is Ok) == (spec_lookup(self@, key@) is Some),
            r matches Ok(v) ==> spec_lookup(self@, key@) == Some(v@),
            r matches Err(e) ==> (e matches ConfigError::MissingKey { key: k } && k@ == key@),
    {
        match self.optional(key) {
            Some(v) => Ok(v),
            None => Err(ConfigError::MissingKey { key: key.to_owned() }),
        }
    }

    /// Reads a key as a boolean setting: absent or unparsable both read as
    /// nothing.
    pub fn parse_optional(&self, key: &str) -> (r: Option<bool>)
        ensures
            r == (match spec_lookup(self@, key@) {
                None => None::<bool>,
                Some(v) => spec_parse_bool(v),
            }),
    {
        match self.optional(key) {
            None => None,
            Some(v) => {
                if str_eq(v, "true") {
                    Some(true)
                } else if str_eq(v, "false") {
                    Some(false)
                } else {
                    None
                }
            },
        }
    }

    /// Reads a key as a list of numbers: the value's comma-separated
    /// segments, trimmed, keeping exactly those that parse, in order; an
    /// absent key reads as the empty list.
    pub fn parse_list(&self, key: &str) -> (r: Vec<u64>)
        ensures
            r@ == spec_config_list(self@, key@),
    {
        let value: &str = match self.optional(key) {
            None => {
                return Vec::new();
            },
            Some(v) => v,
        };
        let len = value.unicode_len();
        let mut out: Vec<u64> = Vec::new();
        let mut seg_start: usize = 0;
        let mut pos: usize = 0;
        proof {
            assert(value@.skip(0) =~= value@);
        }
        while pos < len
            invariant
                seg_start <= pos <= len,
                value@.len() == len as nat,
                forall|m: int| seg_start <= m < pos ==> value@[m] != ',',
                out@ + spec_parse_segments(spec_split(value@.skip(seg_start as int)))
                    =~= spec_parse_list(value@),
            decreases len - pos,
        {
            let c = value.get_char(pos);
            if c == ',' {
                let seg = value.substring_char(seg_start, pos);
                proof {
                    let suffix = value@.skip(seg_start as int);
                    assert forall|j: int| 0 <= j < pos - seg_start implies suffix[j] != ',' by {
                        assert(suffix[j] == value@[j + seg_start]);
                    }
                    assert(suffix[pos - seg_start as int] == value@[pos as int]);
                    lemma_first_comma_at(suffix, pos - seg_start as int);
                    assert(seg@ =~= suffix.take(pos - seg_start as int));
                    assert(suffix.skip(pos - seg_start as int + 1) =~= value@.skip(pos as int + 1));
                    assert(spec_split(suffix) == seq![seg@] + spec_split(
                        value@.skip(pos as int + 1),
                    ));
                    lemma_parse_segments_concat(
                        seq![seg@],
                        spec_split(value@.skip(pos as int + 1)),
                    );
                    lemma_parse_segments_singleton(seg@);
                }
                let ghost pre_out = out@;
                push_segment(&mut out, seg);
                proof {
                    let rest = spec_parse_segments(spec_split(value@.skip(pos as int + 1)));
                    assert(spec_parse_segments(spec_split(value@.skip(seg_start as int)))
                        == spec_segment_item(seg@) + rest);
                    assert(out@ + rest =~= pre_out + (spec_segment_item(seg@) + rest));
                    assert(out@ + rest =~= spec_parse_list(value@));
                }
                seg_start = pos + 1;
            }
            pos += 1;
        }
        let seg = value.substring_char(seg_start, len);
        proof {
            let suffix = value@.skip(seg_start as int);
            assert forall|j: int| 0 <= j < len - seg_start implies suffix[j] != ',' by {
                assert(suffix[j] == value@[j + seg_start]);
            }
            lemma_first_comma_at(suffix, len - seg_start as int);
            assert(seg@ =~= suffix.take(len - seg_start as int));
            assert(seg@ =~= suffix);
            assert(spec_split(suffix) == seq![seg@]);
            lemma_parse_segments_singleton(seg@);
        }
        let ghost pre_out = out@;
        push_segment(&mut out, seg);
        proof {
            assert(pre_out + spec_parse_segments(spec_split(value@.skip(seg_start as int)))
                =~= spec_parse_list(value@));
            assert(out@ =~= pre_out + spec_segment_item(seg@));
            assert(out@ =~= spec_parse_list(value@));
        }
        out
    }

    /// Reads a key as a list that must not be empty, or says which key was
    /// missing or empty.
    pub fn required_list(&self, key: &str) -> (r: Result<Vec<u64>, ConfigError>)
        ensures
            (r is Ok) == (spec_config_list(self@, key@).len() > 0),
            r matches Ok(l) ==> l@ == spec_config_list(self@, key@),
            r matches Err(e) ==> (e matches ConfigError::EmptyList { key: k } && k@ == key@),
    {
        let list = self.parse_list(key);
        if list.is_empty() {
            Err(ConfigError::EmptyList { key: key.to_owned() })
        } else {
            Ok(list)
        }
    }
}

} // verus!
