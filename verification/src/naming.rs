//! Choosing a file name for a new image that does not clobber an existing
//! file: the name asked for, or else the stem with a two-digit suffix from 01
//! to 99 and the same extension.
//!
//! Whether a file exists is for the caller to find out; the search is driven
//! one probe at a time by `next_available_name`.

use vstd::prelude::*;

verus! {

/// Highest numbered suffix tried.
pub const MAX_SUFFIX: u8 = 99;

/// The decimal digit character for `d` in 0..10.
pub open spec fn digit_char(d: int) -> char {
    if d == 0 {
        '0'
    } else if d == 1 {
        '1'
    } else if d == 2 {
        '2'
    } else if d == 3 {
        '3'
    } else if d == 4 {
        '4'
    } else if d == 5 {
        '5'
    } else if d == 6 {
        '6'
    } else if d == 7 {
        '7'
    } else if d == 8 {
        '8'
    } else {
        '9'
    }
}

/// The file name with suffix `i`: the stem, `i` as two decimal digits, then a
/// dot and the extension when there is one.
pub open spec fn spec_candidate_name(stem: Seq<char>, extension: Seq<char>, i: int) -> Seq<char> {
    stem + seq![digit_char(i / 10), digit_char(i % 10)] + if extension.len() == 0 {
        Seq::<char>::empty()
    } else {
        seq!['.'] + extension
    }
}

/// Appends a character to a string (`String::push`).
#[verifier::external_body]
fn push_char(s: &mut String, c: char)
    ensures
        final(s)@ == old(s)@.push(c),
{
    s.push(c);
}

/// The decimal digit character for `d`.
fn digit(d: u8) -> (c: char)
    requires
        d < 10,
    ensures
        c == digit_char(d as int),
        c as u32 == 48 + d,
{
    proof {
        lemma_digit_char_code_point(d as int);
    }
    match d {
        0 => '0',
        1 => '1',
        2 => '2',
        3 => '3',
        4 => '4',
        5 => '5',
        6 => '6',
        7 => '7',
        8 => '8',
        _ => '9',
    }
}

/// The file name with suffix `index`, as `{stem}{index:02}` or
/// `{stem}{index:02}.{extension}`.
pub fn candidate_name(stem: &str, extension: &str, index: u8) -> (name: String)
    requires
        1 <= index <= MAX_SUFFIX,
    ensures
        name@ == spec_candidate_name(stem@, extension@, index as int),
        name@.len() >= stem@.len() + 2,
        name@.subrange(0, stem@.len() as int) == stem@,
        name@[stem@.len() as int] as u32 == 48 + index / 10,
        name@[stem@.len() as int + 1] as u32 == 48 + index % 10,
{
    proof {
        lemma_candidate_name_suffix_digits(stem@, extension@, index as int);
    }
    let mut name = String::new();
    name.append(stem);
    push_char(&mut name, digit(index / 10));
    push_char(&mut name, digit(index % 10));
    if !extension.is_empty() {
        push_char(&mut name, '.');
        name.append(extension);
    }
    assert(name@ =~= spec_candidate_name(stem@, extension@, index as int));
    name
}

/// Why no name could be chosen.
#[derive(Debug, Clone, Copy, PartialEq, Eq)]
pub enum NameError {
    /// The name asked for is taken and has no usable stem.
    InvalidFilename,
    /// The name asked for and all 99 numbered names are taken.
    NoneAvailable,
}

/// What to do after probing a name.
pub enum NameStep {
    /// The name just probed is free: use it.
    Take,
    /// Probe this file name (in the same directory) next.
    Check(String),
    /// Give up.
    Fail(NameError),
}

/// The mathematical value of a [`NameStep`].
pub enum NameStepModel {
    Take,
    Check(Seq<char>),
    Fail(NameError),
}

impl View for NameStep {
    type V = NameStepModel;

    open spec fn view(&self) -> NameStepModel {
        match self {
            NameStep::Take => NameStepModel::Take,
            NameStep::Check(s) => NameStepModel::Check(s@),
            NameStep::Fail(e) => NameStepModel::Fail(*e),
        }
    }
}

/// The stem, as characters.
pub open spec fn stem_view(stem: Option<&str>) -> Option<Seq<char>> {
    match stem {
        Some(s) => Some(s@),
        None => None,
    }
}

/// The decision after probing name number `probed` (0 is the name asked for,
/// 1 to 99 the numbered names) and finding that it `exists` or not.
pub open spec fn spec_name_step(stem: Option<Seq<char>>, extension: Seq<char>, probed: int, exists: bool) -> NameStepModel {
    if !exists {
        NameStepModel::Take
    } else {
        match stem {
            None => NameStepModel::Fail(NameError::InvalidFilename),
            Some(st) => if probed >= MAX_SUFFIX {
                NameStepModel::Fail(NameError::NoneAvailable)
            } else {
                NameStepModel::Check(spec_candidate_name(st, extension, probed + 1))
            },
        }
    }
}

/// One step of the search for a free file name. The caller first probes the
/// name asked for (`probed == 0`); after each probe it passes whether that name
/// exists and gets back whether to take it, which name to probe next (as
/// probe number `probed + 1`), or that no name is available. `stem` and
/// `extension` are those of the name asked for (`None` when it has no stem
/// that is valid text; an empty extension when it has none).
pub fn next_available_name(stem: Option<&str>, extension: &str, probed: u8, exists: bool) -> (step: NameStep)
    requires
        probed <= MAX_SUFFIX,
    ensures
        step@ == spec_name_step(stem_view(stem), extension@, probed as int, exists),
{
    if !exists {
        return NameStep::Take;
    }
    match stem {
        None => NameStep::Fail(NameError::InvalidFilename),
        Some(st) => {
            if probed >= MAX_SUFFIX {
                NameStep::Fail(NameError::NoneAvailable)
            } else {
                NameStep::Check(candidate_name(st, extension, probed + 1))
            }
        },
    }
}

/// The end of a search driven by [`next_available_name`].
pub enum SearchOutcome {
    /// Name number `i` is used.
    Found(int),
    Failed(NameError),
}

/// Where the search ends when probe number `j` finds `exists[j]`, starting at probe `probed`.
pub open spec fn spec_search(stem: Option<Seq<char>>, extension: Seq<char>, exists: Seq<bool>, probed: int) -> SearchOutcome
    decreases MAX_SUFFIX + 1 - probed,
{
    if probed < 0 || probed > MAX_SUFFIX {
        SearchOutcome::Failed(NameError::NoneAvailable)
    } else {
        match spec_name_step(stem, extension, probed, exists[probed]) {
            NameStepModel::Take => SearchOutcome::Found(probed),
            NameStepModel::Fail(e) => SearchOutcome::Failed(e),
            NameStepModel::Check(_) => spec_search(stem, extension, exists, probed + 1),
        }
    }
}

/// The search takes the first free name among the name asked for and the
/// numbered names 01 to 99; it fails with `InvalidFilename` only when the name
/// asked for is taken and has no stem, and with `NoneAvailable` only when all
/// hundred names are taken.
pub proof fn lemma_search_takes_first_free(stem: Option<Seq<char>>, extension: Seq<char>, exists: Seq<bool>)
    requires
        exists.len() == MAX_SUFFIX + 1,
    ensures
        match spec_search(stem, extension, exists, 0) {
            SearchOutcome::Found(i) => {
                &&& 0 <= i <= MAX_SUFFIX
                &&& !exists[i]
                &&& forall|j: int| 0 <= j < i ==> exists[j]
                &&& (i > 0 ==> stem is Some)
            },
            SearchOutcome::Failed(NameError::InvalidFilename) => exists[0] && stem is None,
            SearchOutcome::Failed(NameError::NoneAvailable) => {
                &&& stem is Some
                &&& forall|j: int| 0 <= j <= MAX_SUFFIX ==> exists[j]
            },
        },
{
    lemma_search_from(stem, extension, exists, 0);
}

proof fn lemma_search_from(stem: Option<Seq<char>>, extension: Seq<char>, exists: Seq<bool>, k: int)
    requires
        exists.len() == MAX_SUFFIX + 1,
        0 <= k <= MAX_SUFFIX,
        k > 0 ==> stem is Some,
    ensures
        match spec_search(stem, extension, exists, k) {
            SearchOutcome::Found(i) => {
                &&& k <= i <= MAX_SUFFIX
                &&& !exists[i]
                &&& forall|j: int| k <= j < i ==> exists[j]
                &&& (i > 0 ==> stem is Some)
            },
            SearchOutcome::Failed(NameError::InvalidFilename) => k == 0 && exists[0] && stem is None,
            SearchOutcome::Failed(NameError::NoneAvailable) => {
                &&& stem is Some
                &&& forall|j: int| k <= j <= MAX_SUFFIX ==> exists[j]
            },
        },
    decreases MAX_SUFFIX + 1 - k,
{
    if exists[k] && stem is Some && k < MAX_SUFFIX {
        lemma_search_from(stem, extension, exists, k + 1);
    }
}

/// Different suffixes give different names.
pub proof fn lemma_candidate_names_distinct(stem: Seq<char>, extension: Seq<char>, i: int, j: int)
    requires
        1 <= i <= MAX_SUFFIX,
        1 <= j <= MAX_SUFFIX,
        i != j,
    ensures
        spec_candidate_name(stem, extension, i) != spec_candidate_name(stem, extension, j),
{
    let a = spec_candidate_name(stem, extension, i);
    let b = spec_candidate_name(stem, extension, j);
    assert(a[stem.len() as int] == digit_char(i / 10));
    assert(b[stem.len() as int] == digit_char(j / 10));
    assert(a[stem.len() as int + 1] == digit_char(i % 10));
    assert(b[stem.len() as int + 1] == digit_char(j % 10));
}

/// The digit character for `d` is the character with code point `'0' + d`.
pub proof fn lemma_digit_char_code_point(d: int)
    requires
        0 <= d < 10,
    ensures
        digit_char(d) as u32 == 48 + d,
{
}

/// The name with suffix `i` starts with the stem, followed by the two decimal
/// digits of `i`: the characters with code points `'0' + i / 10` and
/// `'0' + i % 10`; after them comes nothing when there is no extension, and
/// otherwise a dot and the extension.
pub proof fn lemma_candidate_name_suffix_digits(stem: Seq<char>, extension: Seq<char>, i: int)
    requires
        1 <= i <= MAX_SUFFIX,
    ensures
        ({
            let name = spec_candidate_name(stem, extension, i);
            &&& name.len() == stem.len() + 2 + if extension.len() == 0 { 0 } else { extension.len() + 1 }
            &&& name.subrange(0, stem.len() as int) == stem
            &&& name[stem.len() as int] as u32 == 48 + i / 10
            &&& name[stem.len() as int + 1] as u32 == 48 + i % 10
            &&& extension.len() > 0 ==> name[stem.len() as int + 2] == '.'
            &&& extension.len() > 0 ==> name.subrange(stem.len() as int + 3, name.len() as int) == extension
        }),
{
    let name = spec_candidate_name(stem, extension, i);
    lemma_digit_char_code_point(i / 10);
    lemma_digit_char_code_point(i % 10);
    assert(name.subrange(0, stem.len() as int) =~= stem);
    if extension.len() > 0 {
        assert(name.subrange(stem.len() as int + 3, name.len() as int) =~= extension);
    }
}

} // verus!
