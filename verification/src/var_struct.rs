//! Reading the description of a variable field: which kind of variable it
//! names, which object it is read from, and which accessor reads it.

use crate::sys::{
    FsObjectId, FS_OBJECT_ID_USER_AIRCRAFT, FS_OBJECT_ID_USER_AVATAR, FS_OBJECT_ID_USER_CURRENT,
};
use vstd::prelude::*;
use vstd::string::{StrSliceExecFns, StringExecFns};

verus! {

/// The kind of variable a field names.
#[derive(Debug, Clone, Copy, PartialEq, Eq, Structural)]
pub enum VarKindSel {
    A,
    L,
}

/// The object a field is read from.
#[derive(Debug, Clone, Copy, PartialEq, Eq, Structural)]
pub enum VarTargetSel {
    UserAircraft,
    UserAvatar,
    UserCurrent,
}

/// Whether `c` is white space, which is what trimming removes.
pub open spec fn is_white_space(c: char) -> bool {
    let u = c as u32;
    ||| 0x09 <= u <= 0x0d
    ||| u == 0x20
    ||| u == 0x85
    ||| u == 0xa0
    ||| u == 0x1680
    ||| 0x2000 <= u <= 0x200a
    ||| u == 0x2028
    ||| u == 0x2029
    ||| u == 0x202f
    ||| u == 0x205f
    ||| u == 0x3000
}

/// The number of white-space characters `s` begins with.
pub open spec fn leading_white_space(s: Seq<char>) -> nat
    decreases s.len(),
{
    if s.len() == 0 || !is_white_space(s[0]) {
        0
    } else {
        1 + leading_white_space(s.drop_first())
    }
}

/// The number of white-space characters `s` ends with.
pub open spec fn trailing_white_space(s: Seq<char>) -> nat
    decreases s.len(),
{
    if s.len() == 0 || !is_white_space(s.last()) {
        0
    } else {
        1 + trailing_white_space(s.drop_last())
    }
}

/// `s` without the white space it begins with.
pub open spec fn trimmed_start(s: Seq<char>) -> Seq<char> {
    s.subrange(leading_white_space(s) as int, s.len() as int)
}

/// `s` without the white space it begins and ends with.
pub open spec fn trimmed(s: Seq<char>) -> Seq<char> {
    let rest = trimmed_start(s);
    rest.subrange(0, rest.len() - trailing_white_space(rest))
}

/// `c` with a small ASCII letter turned into the capital one.
pub open spec fn ascii_upper(c: char) -> char {
    if 'a' <= c <= 'z' {
        ((c as u32 - 32) as u8) as char
    } else {
        c
    }
}

/// `s` with its small ASCII letters turned into capital ones.
pub open spec fn ascii_upper_seq(s: Seq<char>) -> Seq<char> {
    Seq::new(s.len(), |i: int| ascii_upper(s[i]))
}

/// The kind a word names.
pub open spec fn kind_of_word(word: Seq<char>) -> Option<VarKindSel> {
    if word == "A"@ || word == "AVar"@ || word == "a"@ || word == "avar"@ {
        Some(VarKindSel::A)
    } else if word == "L"@ || word == "LVar"@ || word == "l"@ || word == "lvar"@ {
        Some(VarKindSel::L)
    } else {
        None
    }
}

/// The kind the prefix of a variable name stands for: `A:` or `L:`, in
/// either case.
pub open spec fn kind_of_prefix(name: Seq<char>) -> Option<VarKindSel> {
    if name.len() >= 2 && ascii_upper(name[0]) == 'A' && name[1] == ':' {
        Some(VarKindSel::A)
    } else if name.len() >= 2 && ascii_upper(name[0]) == 'L' && name[1] == ':' {
        Some(VarKindSel::L)
    } else {
        None
    }
}

/// The object a word in capitals names.
pub open spec fn target_of_word(word: Seq<char>) -> Option<VarTargetSel> {
    if word == "USER_AIRCRAFT"@ || word == "FS_OBJECT_ID_USER_AIRCRAFT"@ {
        Some(VarTargetSel::UserAircraft)
    } else if word == "USER_AVATAR"@ || word == "FS_OBJECT_ID_USER_AVATAR"@ {
        Some(VarTargetSel::UserAvatar)
    } else if word == "USER_CURRENT"@ || word == "FS_OBJECT_ID_USER_CURRENT"@ {
        Some(VarTargetSel::UserCurrent)
    } else {
        None
    }
}

proof fn lemma_leading(s: Seq<char>, k: int)
    requires
        0 <= k <= s.len(),
        forall|j: int| 0 <= j < k ==> is_white_space(#[trigger] s[j]),
        k == s.len() || !is_white_space(s[k]),
    ensures
        leading_white_space(s) == k,
    decreases k,
{
    if k > 0 {
        let rest = s.drop_first();
        assert forall|j: int| 0 <= j < k - 1 implies is_white_space(#[trigger] rest[j]) by {
            assert(rest[j] == s[j + 1]);
        }
        lemma_leading(rest, k - 1);
    }
}

proof fn lemma_trailing(s: Seq<char>, k: int)
    requires
        0 <= k <= s.len(),
        forall|j: int| s.len() - k <= j < s.len() ==> is_white_space(#[trigger] s[j]),
        k == s.len() || !is_white_space(s[s.len() - k - 1]),
    ensures
        trailing_white_space(s) == k,
    decreases k,
{
    if k > 0 {
        let rest = s.drop_last();
        assert forall|j: int| rest.len() - (k - 1) <= j < rest.len() implies is_white_space(
            #[trigger] rest[j],
        ) by {
            assert(rest[j] == s[j]);
        }
        lemma_trailing(rest, k - 1);
    }
}

/// Whether `c` is white space.
pub fn is_whitespace(c: char) -> (white: bool)
    ensures
        white == is_white_space(c),
{
    let u = c as u32;
    (0x09 <= u && u <= 0x0d) || u == 0x20 || u == 0x85 || u == 0xa0 || u == 0x1680 || (0x2000 <= u
        && u <= 0x200a) || u == 0x2028 || u == 0x2029 || u == 0x202f || u == 0x205f || u == 0x3000
}

/// `c` with a small ASCII letter turned into the capital one.
pub fn to_ascii_uppercase(c: char) -> (upper: char)
    ensures
        upper == ascii_upper(c),
{
    if 'a' <= c && c <= 'z' {
        ((c as u32 - 32) as u8) as char
    } else {
        c
    }
}

fn trim_start_index(s: &str) -> (start: usize)
    ensures
        start == leading_white_space(s@),
        start <= s@.len(),
{
    let len = s.unicode_len();
    let mut start: usize = 0;
    while start < len && is_whitespace(s.get_char(start))
        invariant
            start <= len,
            len == s@.len(),
            forall|j: int| 0 <= j < start ==> is_white_space(#[trigger] s@[j]),
        decreases len - start,
    {
        start += 1;
    }
    proof {
        lemma_leading(s@, start as int);
    }
    start
}

fn trim_bounds(s: &str) -> (bounds: (usize, usize))
    ensures
        bounds.0 <= bounds.1 <= s@.len(),
        s@.subrange(bounds.0 as int, bounds.1 as int) == trimmed(s@),
{
    let len = s.unicode_len();
    let start = trim_start_index(s);
    let mut end: usize = len;
    while end > start && is_whitespace(s.get_char(end - 1))
        invariant
            start <= end <= len,
            len == s@.len(),
            forall|j: int| end <= j < len ==> is_white_space(#[trigger] s@[j]),
        decreases end - start,
    {
        end -= 1;
    }
    proof {
        let rest = trimmed_start(s@);
        assert(rest.len() == len - start);
        assert forall|j: int| rest.len() - (len - end) <= j < rest.len() implies is_white_space(
            #[trigger] rest[j],
        ) by {
            assert(rest[j] == s@[j + start]);
        }
        if end > start {
            assert(rest[rest.len() - (len - end) - 1] == s@[end - 1]);
        }
        lemma_trailing(rest, (len - end) as int);
        assert(rest.subrange(0, rest.len() - (len - end)) =~= s@.subrange(start as int, end as int));
    }
    (start, end)
}

fn range_is(s: &str, start: usize, end: usize, word: &str, fold: bool) -> (same: bool)
    requires
        start <= end <= s@.len(),
    ensures
        same == (if fold {
            ascii_upper_seq(s@.subrange(start as int, end as int)) == word@
        } else {
            s@.subrange(start as int, end as int) == word@
        }),
{
    let n = word.unicode_len();
    if end - start != n {
        return false;
    }
    let mut i: usize = 0;
    while i < n
        invariant
            i <= n,
            n == word@.len(),
            n == end - start,
            start <= end <= s@.len(),
            forall|j: int|
                0 <= j < i ==> (if fold {
                    ascii_upper(s@[start + j])
                } else {
                    s@[start + j]
                }) == #[trigger] word@[j],
        decreases n - i,
    {
        let c = s.get_char(start + i);
        let c = if fold {
            to_ascii_uppercase(c)
        } else {
            c
        };
        if c != word.get_char(i) {
            proof {
                let part = s@.subrange(start as int, end as int);
                assert(part[i as int] == s@[start + i]);
                if fold {
                    assert(ascii_upper_seq(part)[i as int] != word@[i as int]);
                }
            }
            return false;
        }
        i += 1;
    }
    proof {
        let part = s@.subrange(start as int, end as int);
        if fold {
            assert(ascii_upper_seq(part) =~= word@);
        } else {
            assert(part =~= word@);
        }
    }
    true
}

/// Reads the kind a field asks for: `A` or `AVar`, `L` or `LVar`, each also
/// in small letters, with white space around it ignored.
pub fn parse_kind_str(s: &str) -> (kind: Option<VarKindSel>)
    ensures
        kind == kind_of_word(trimmed(s@)),
{
    let (start, end) = trim_bounds(s);
    if range_is(s, start, end, "A", false) || range_is(s, start, end, "AVar", false) || range_is(
        s,
        start,
        end,
        "a",
        false,
    ) || range_is(s, start, end, "avar", false) {
        Some(VarKindSel::A)
    } else if range_is(s, start, end, "L", false) || range_is(s, start, end, "LVar", false)
        || range_is(s, start, end, "l", false) || range_is(s, start, end, "lvar", false) {
        Some(VarKindSel::L)
    } else {
        None
    }
}

/// Reads the kind off the prefix of a variable name: `A:` or `L:`, in
/// either case, with white space before it ignored.
pub fn infer_kind_from_name(name: &str) -> (kind: Option<VarKindSel>)
    ensures
        kind == kind_of_prefix(trimmed_start(name@)),
{
    let len = name.unicode_len();
    let start = trim_start_index(name);
    if len - start < 2 {
        return None;
    }
    let first = to_ascii_uppercase(name.get_char(start));
    let second = name.get_char(start + 1);
    proof {
        let rest = trimmed_start(name@);
        assert(rest[0] == name@[start as int]);
        assert(rest[1] == name@[start + 1]);
    }
    if first == 'A' && second == ':' {
        Some(VarKindSel::A)
    } else if first == 'L' && second == ':' {
        Some(VarKindSel::L)
    } else {
        None
    }
}

/// Reads the object a field asks for, by its short or its full name in
/// either case, with white space around it ignored.
pub fn parse_target_str(s: &str) -> (target: Option<VarTargetSel>)
    ensures
        target == target_of_word(ascii_upper_seq(trimmed(s@))),
{
    let (start, end) = trim_bounds(s);
    if range_is(s, start, end, "USER_AIRCRAFT", true) || range_is(
        s,
        start,
        end,
        "FS_OBJECT_ID_USER_AIRCRAFT",
        true,
    ) {
        Some(VarTargetSel::UserAircraft)
    } else if range_is(s, start, end, "USER_AVATAR", true) || range_is(
        s,
        start,
        end,
        "FS_OBJECT_ID_USER_AVATAR",
        true,
    ) {
        Some(VarTargetSel::UserAvatar)
    } else if range_is(s, start, end, "USER_CURRENT", true) || range_is(
        s,
        start,
        end,
        "FS_OBJECT_ID_USER_CURRENT",
        true,
    ) {
        Some(VarTargetSel::UserCurrent)
    } else {
        None
    }
}

/// The identifier the host knows an object by.
pub open spec fn object_id(target: VarTargetSel) -> FsObjectId {
    match target {
        VarTargetSel::UserAircraft => FS_OBJECT_ID_USER_AIRCRAFT,
        VarTargetSel::UserAvatar => FS_OBJECT_ID_USER_AVATAR,
        VarTargetSel::UserCurrent => FS_OBJECT_ID_USER_CURRENT,
    }
}

/// The identifier the host knows an object by.
pub fn target_id(target: VarTargetSel) -> (id: FsObjectId)
    ensures
        id == object_id(target),
{
    match target {
        VarTargetSel::UserAircraft => FS_OBJECT_ID_USER_AIRCRAFT,
        VarTargetSel::UserAvatar => FS_OBJECT_ID_USER_AVATAR,
        VarTargetSel::UserCurrent => FS_OBJECT_ID_USER_CURRENT,
    }
}

/// What a field says of its variable, once it has been read and checked.
pub struct FieldSpec {
    pub name: String,
    pub unit: String,
    pub kind: VarKindSel,
    pub index: Option<u32>,
    pub target: Option<VarTargetSel>,
}

/// Why the description of a field is refused.
#[derive(Debug, Clone, Copy, PartialEq, Eq, Structural)]
pub enum FieldError {
    /// The field names no variable.
    MissingName,
    /// The field names no kind, and the name of its variable has no prefix
    /// to tell it by.
    MissingKind,
    /// The field asks for an index, which only variables of kind `A` take.
    IndexNotSupported,
}

/// The accessor that reads or writes a field.
#[derive(Debug, Clone, Copy, PartialEq, Eq, Structural)]
pub enum Accessor {
    Plain,
    Target(VarTargetSel),
    Indexed(u32),
    IndexedTarget(u32, VarTargetSel),
}

/// The kind of a field: the one it names, or else the one the prefix of its
/// variable's name tells.
pub open spec fn resolved_kind(name: Seq<char>, kind: Option<VarKindSel>) -> Option<VarKindSel> {
    match kind {
        Some(k) => Some(k),
        None => kind_of_prefix(trimmed_start(name)),
    }
}

/// Checks what a field says of its variable and fills in what it leaves
/// open. The name is required; the unit is `Number` unless one is given; the
/// kind is the one given or else the one the name's prefix tells; an index
/// is accepted for kind `A` only.
pub fn resolve_field(
    name: Option<String>,
    unit: Option<String>,
    kind: Option<VarKindSel>,
    index: Option<u32>,
    target: Option<VarTargetSel>,
) -> (resolved: Result<FieldSpec, FieldError>)
    ensures
        match resolved {
            Ok(spec) => {
                &&& name == Some(spec.name)
                &&& spec.unit@ == (match unit {
                    Some(u) => u@,
                    None => "Number"@,
                })
                &&& resolved_kind(spec.name@, kind) == Some(spec.kind)
                &&& spec.index == index
                &&& spec.target == target
                &&& index is Some ==> spec.kind == VarKindSel::A
            },
            Err(FieldError::MissingName) => name is None,
            Err(FieldError::MissingKind) => {
                &&& name matches Some(n)
                &&& resolved_kind(n@, kind) is None
            },
            Err(FieldError::IndexNotSupported) => {
                &&& name matches Some(n)
                &&& resolved_kind(n@, kind) == Some(VarKindSel::L)
                &&& index is Some
            },
        },
{
    let name = match name {
        Some(n) => n,
        None => {
            return Err(FieldError::MissingName);
        },
    };
    let unit = match unit {
        Some(u) => u,
        None => String::from_str("Number"),
    };
    let kind = match kind {
        Some(k) => Some(k),
        None => infer_kind_from_name(name.as_str()),
    };
    let kind = match kind {
        Some(k) => k,
        None => {
            return Err(FieldError::MissingKind);
        },
    };
    if index.is_some() && kind != VarKindSel::A {
        return Err(FieldError::IndexNotSupported);
    }
    Ok(FieldSpec { name, unit, kind, index, target })
}

/// The accessor for a field with this index and this object.
pub open spec fn accessor_of(index: Option<u32>, target: Option<VarTargetSel>) -> Accessor {
    match (index, target) {
        (Some(i), Some(t)) => Accessor::IndexedTarget(i, t),
        (Some(i), None) => Accessor::Indexed(i),
        (None, Some(t)) => Accessor::Target(t),
        (None, None) => Accessor::Plain,
    }
}

impl FieldSpec {
    /// The accessor that reads or writes the field.
    pub fn accessor(&self) -> (accessor: Accessor)
        ensures
            accessor == accessor_of(self.index, self.target),
    {
        match (self.index, self.target) {
            (Some(i), Some(t)) => Accessor::IndexedTarget(i, t),
            (Some(i), None) => Accessor::Indexed(i),
            (None, Some(t)) => Accessor::Target(t),
            (None, None) => Accessor::Plain,
        }
    }
}

} // verus!
