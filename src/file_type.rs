//! The storage-format tag of a model file and its on-disk integer code.
use vstd::prelude::*;

verus! {

/// How the tensors are stored in the model.
#[derive(Debug, PartialEq, Eq, Structural, Clone, Copy)]
pub enum FileType {
    /// All tensors are stored as `f32`.
    F32,
    /// All tensors are mostly stored as `f16`, except for the 1D tensors (32-bit).
    MostlyF16,
    /// All tensors are mostly stored as `Q4_0`, except for the 1D tensors (32-bit).
    MostlyQ4_0,
    /// All tensors are mostly stored as `Q4_1`, except for the 1D tensors (32-bit).
    MostlyQ4_1,
    /// All tensors are mostly stored as `Q4_2`, except for the 1D tensors (32-bit).
    MostlyQ4_2,
    /// All tensors are mostly stored as `Q4_3`, except for the 1D tensors (32-bit).
    MostlyQ4_3,
    /// All tensors are mostly stored as `Q5_0`, except for the 1D tensors (32-bit).
    MostlyQ5_0,
    /// All tensors are mostly stored as `Q5_1`, except for the 1D tensors (32-bit).
    MostlyQ5_1,
    /// All tensors are mostly stored as `Q8_0`, except for the 1D tensors (32-bit).
    MostlyQ8_0,
    /// All tensors are mostly stored as `Q8_1`, except for the 1D tensors (32-bit).
    MostlyQ8_1,
}

/// Number of declared storage formats; valid codes are `0..FILE_TYPE_COUNT`.
pub const FILE_TYPE_COUNT: i32 = 10;

/// The on-disk code of a tag: its zero-based declaration index.
pub open spec fn code_of(t: FileType) -> int {
    match t {
        FileType::F32 => 0,
        FileType::MostlyF16 => 1,
        FileType::MostlyQ4_0 => 2,
        FileType::MostlyQ4_1 => 3,
        FileType::MostlyQ4_2 => 4,
        FileType::MostlyQ4_3 => 5,
        FileType::MostlyQ5_0 => 6,
        FileType::MostlyQ5_1 => 7,
        FileType::MostlyQ8_0 => 8,
        FileType::MostlyQ8_1 => 9,
    }
}

/// The code is valid when it lies in the dense range of declared tags.
pub open spec fn is_valid_code(code: int) -> bool {
    0 <= code < FILE_TYPE_COUNT
}

/// The tag whose code is `code`, if any.
pub open spec fn tag_of(code: int) -> Option<FileType> {
    if code == 0 {
        Some(FileType::F32)
    } else if code == 1 {
        Some(FileType::MostlyF16)
    } else if code == 2 {
        Some(FileType::MostlyQ4_0)
    } else if code == 3 {
        Some(FileType::MostlyQ4_1)
    } else if code == 4 {
        Some(FileType::MostlyQ4_2)
    } else if code == 5 {
        Some(FileType::MostlyQ4_3)
    } else if code == 6 {
        Some(FileType::MostlyQ5_0)
    } else if code == 7 {
        Some(FileType::MostlyQ5_1)
    } else if code == 8 {
        Some(FileType::MostlyQ8_0)
    } else if code == 9 {
        Some(FileType::MostlyQ8_1)
    } else {
        None
    }
}

/// The short lowercase name of a tag.
pub open spec fn name_of(t: FileType) -> Seq<char> {
    match t {
        FileType::F32 => "f32"@,
        FileType::MostlyF16 => "f16"@,
        FileType::MostlyQ4_0 => "q4_0"@,
        FileType::MostlyQ4_1 => "q4_1"@,
        FileType::MostlyQ4_2 => "q4_2"@,
        FileType::MostlyQ4_3 => "q4_3"@,
        FileType::MostlyQ5_0 => "q5_0"@,
        FileType::MostlyQ5_1 => "q5_1"@,
        FileType::MostlyQ8_0 => "q8_0"@,
        FileType::MostlyQ8_1 => "q8_1"@,
    }
}

/// A short name uses only lowercase ASCII letters, digits and `_`.
pub open spec fn is_short_name(s: Seq<char>) -> bool {
    &&& s.len() > 0
    &&& forall|i: int|
        0 <= i < s.len() ==> (('a' <= #[trigger] s[i] && s[i] <= 'z') || ('0' <= s[i] && s[i]
            <= '9') || s[i] == '_')
}

/// Decoding the code of any tag gives that tag back.
pub proof fn lemma_round_trip(t: FileType)
    ensures
        is_valid_code(code_of(t)),
        tag_of(code_of(t)) == Some(t),
{
}

/// No integer outside the range of codes decodes to a tag.
pub proof fn lemma_out_of_range(code: int)
    requires
        !is_valid_code(code),
    ensures
        tag_of(code) is None,
{
}

/// The codes of the tags are exactly `0..FILE_TYPE_COUNT`, each taken by one tag.
pub proof fn lemma_dense()
    ensures
        forall|t: FileType| is_valid_code(#[trigger] code_of(t)),
        forall|c: int|
            is_valid_code(c) ==> (#[trigger] tag_of(c) matches Some(t) && code_of(t) == c),
        forall|t1: FileType, t2: FileType|
            #[trigger] code_of(t1) == #[trigger] code_of(t2) ==> t1 == t2,
{
    assert forall|t1: FileType, t2: FileType|
        #[trigger] code_of(t1) == #[trigger] code_of(t2) implies t1 == t2 by {
        lemma_round_trip(t1);
        lemma_round_trip(t2);
    }
}

/// Every tag has a non-empty lowercase name, and no two tags share one.
pub proof fn lemma_names()
    ensures
        forall|t: FileType| is_short_name(#[trigger] name_of(t)),
        forall|t1: FileType, t2: FileType|
            t1 != t2 ==> #[trigger] name_of(t1) != #[trigger] name_of(t2),
{
    reveal_strlit("f32");
    reveal_strlit("f16");
    reveal_strlit("q4_0");
    reveal_strlit("q4_1");
    reveal_strlit("q4_2");
    reveal_strlit("q4_3");
    reveal_strlit("q5_0");
    reveal_strlit("q5_1");
    reveal_strlit("q8_0");
    reveal_strlit("q8_1");
    assert forall|t: FileType| is_short_name(#[trigger] name_of(t)) by {
        let s = name_of(t);
        assert forall|i: int| 0 <= i < s.len() implies (('a' <= #[trigger] s[i] && s[i] <= 'z')
            || ('0' <= s[i] && s[i] <= '9') || s[i] == '_') by {}
    }
    assert forall|t1: FileType, t2: FileType| t1 != t2 implies #[trigger] name_of(t1)
        != #[trigger] name_of(t2) by {
        let a = name_of(t1);
        let b = name_of(t2);
        if a == b {
            assert(a[0] == b[0] && a[1] == b[1] && a[a.len() - 1] == b[b.len() - 1]);
        }
    }
}

impl From<FileType> for i32 {
    fn from(value: FileType) -> (r: i32)
        ensures
            r == code_of(value),
    {
        match value {
            FileType::F32 => 0,
            FileType::MostlyF16 => 1,
            FileType::MostlyQ4_0 => 2,
            FileType::MostlyQ4_1 => 3,
            FileType::MostlyQ4_2 => 4,
            FileType::MostlyQ4_3 => 5,
            FileType::MostlyQ5_0 => 6,
            FileType::MostlyQ5_1 => 7,
            FileType::MostlyQ8_0 => 8,
            FileType::MostlyQ8_1 => 9,
        }
    }
}

impl vstd::std_specs::convert::FromSpecImpl<FileType> for i32 {
    open spec fn obeys_from_spec() -> bool {
        true
    }

    open spec fn from_spec(v: FileType) -> i32 {
        code_of(v) as i32
    }
}

impl TryFrom<i32> for FileType {
    type Error = ();

    fn try_from(value: i32) -> (r: Result<FileType, ()>)
        ensures
            is_valid_code(value as int) ==> r == Ok::<FileType, ()>(tag_of(value as int).unwrap()),
            !is_valid_code(value as int) ==> r == Err::<FileType, ()>(()),
    {
        match value {
            0 => Ok(FileType::F32),
            1 => Ok(FileType::MostlyF16),
            2 => Ok(FileType::MostlyQ4_0),
            3 => Ok(FileType::MostlyQ4_1),
            4 => Ok(FileType::MostlyQ4_2),
            5 => Ok(FileType::MostlyQ4_3),
            6 => Ok(FileType::MostlyQ5_0),
            7 => Ok(FileType::MostlyQ5_1),
            8 => Ok(FileType::MostlyQ8_0),
            9 => Ok(FileType::MostlyQ8_1),
            _ => Err(()),
        }
    }
}

impl vstd::std_specs::convert::TryFromSpecImpl<i32> for FileType {
    open spec fn obeys_try_from_spec() -> bool {
        true
    }

    open spec fn try_from_spec(v: i32) -> Result<FileType, ()> {
        match tag_of(v as int) {
            Some(t) => Ok(t),
            None => Err(()),
        }
    }
}

impl Default for FileType {
    /// The fallback tag, for use before a file's header has been read.
    fn default() -> (r: FileType)
        ensures
            r == FileType::MostlyF16,
    {
        FileType::MostlyF16
    }
}

impl FileType {
    /// The canonical short lowercase name of this tag (`f32`, `f16`, `q4_0`, ...).
    pub fn name(&self) -> (r: &'static str)
        ensures
            r@ == name_of(*self),
    {
        match self {
            FileType::F32 => "f32",
            FileType::MostlyF16 => "f16",
            FileType::MostlyQ4_0 => "q4_0",
            FileType::MostlyQ4_1 => "q4_1",
            FileType::MostlyQ4_2 => "q4_2",
            FileType::MostlyQ4_3 => "q4_3",
            FileType::MostlyQ5_0 => "q5_0",
            FileType::MostlyQ5_1 => "q5_1",
            FileType::MostlyQ8_0 => "q8_0",
            FileType::MostlyQ8_1 => "q8_1",
        }
    }

    /// The short name as an owned string; see [`FileType::name`].
    pub fn to_string(&self) -> (r: String)
        ensures
            r@ == name_of(*self),
    {
        self.name().to_owned()
    }
}

} // verus!
