use crate::decoders::text::chars_of;
use crate::utils::errors::FileProcessingError;
use vstd::prelude::*;
use vstd::string::*;

verus! {

/// The name of a file and what it holds.
#[derive(Debug, Clone, PartialEq)]
pub struct FileContent {
    pub filename: String,
    pub content: String,
}

/// The two inputs of a match; `None` while one of them is not there yet.
pub type FileContents = Option<(FileContent, FileContent)>;

/// Whether `c` parts the steps of a path: a slash or a backslash.
pub open spec fn is_separator(c: char) -> bool {
    c == '/' || c == '\\'
}

/// Where the last separator stands in `path`; -1 where there is none.
pub open spec fn last_separator(path: Seq<char>) -> int
    decreases path.len(),
{
    if path.len() == 0 {
        -1
    } else if is_separator(path.last()) {
        path.len() - 1
    } else {
        last_separator(path.drop_last())
    }
}

/// The name of the file that `path` leads to: what follows its last
/// separator. `None` where `path` is empty or ends in a separator.
pub open spec fn filename_of(path: Seq<char>) -> Option<Seq<char>> {
    if path.len() == 0 || is_separator(path.last()) {
        None
    } else {
        Some(path.skip(last_separator(path) + 1))
    }
}

/// A file name holds no separator, and it is not empty.
pub proof fn lemma_filename_has_no_separator(path: Seq<char>)
    requires
        filename_of(path) is Some,
    ensures
        filename_of(path)->0.len() > 0,
        forall|i: int|
            0 <= i < filename_of(path)->0.len() ==> !is_separator(#[trigger] filename_of(path)->0[i]),
{
    lemma_last_separator(path);
}

/// The last separator is a separator, and none follows it.
pub proof fn lemma_last_separator(path: Seq<char>)
    ensures
        -1 <= last_separator(path) < path.len(),
        last_separator(path) >= 0 ==> is_separator(path[last_separator(path)]),
        forall|i: int| last_separator(path) < i < path.len() ==> !is_separator(#[trigger] path[i]),
    decreases path.len(),
{
    if path.len() > 0 && !is_separator(path.last()) {
        lemma_last_separator(path.drop_last());
        assert forall|i: int| last_separator(path) < i < path.len() implies !is_separator(
            #[trigger] path[i],
        ) by {
            if i < path.len() - 1 {
                assert(path.drop_last()[i] == path[i]);
            }
        }
    }
}

/// Gets the name of the file from its path.
pub fn get_filename(path: &str) -> (name: Result<String, FileProcessingError>)
    ensures
        match name {
            Ok(n) => filename_of(path@) == Some(n@),
            Err(e) => filename_of(path@) is None && (e matches FileProcessingError::InvalidPathError(
                p,
            ) && p@ == path@),
        },
{
    let chars = chars_of(path);
    let n = chars.len();
    if n == 0 || chars[n - 1] == '/' || chars[n - 1] == '\\' {
        return Err(FileProcessingError::InvalidPathError(String::from_str(path)));
    }
    let mut k: usize = n;
    assert(path@.take(n as int) == path@);
    while k > 0 && !(chars[k - 1] == '/' || chars[k - 1] == '\\')
        invariant
            k <= n,
            n == chars.len(),
            chars@ == path@,
            last_separator(path@) == last_separator(path@.take(k as int)),
        decreases k,
    {
        assert(path@.take(k as int).drop_last() == path@.take(k - 1));
        k = k - 1;
    }
    proof {
        if k > 0 {
            assert(path@.take(k as int).last() == path@[k - 1]);
        }
        assert(path@.take(n as int) == path@);
    }
    assert(path@.skip(k as int) == path@.subrange(k as int, n as int));
    Ok(String::from_str(path.substring_char(k, n)))
}

} // verus!
