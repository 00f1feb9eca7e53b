//! Storage keys of the artifacts derived from a document.

use vstd::prelude::*;

verus! {

/// The kinds of artifact derived from one page.
#[derive(Debug, Clone, Copy, PartialEq, Eq, Structural)]
pub enum ArtifactKind {
    Image,
    Text,
    Audio,
}

impl ArtifactKind {
    /// The file extension under which an artifact of this kind is stored.
    pub open spec fn ext(self) -> Seq<char> {
        match self {
            ArtifactKind::Image => seq!['j', 'p', 'g'],
            ArtifactKind::Text => seq!['t', 'x', 't'],
            ArtifactKind::Audio => seq!['m', 'p', '3'],
        }
    }
}

/// The character of a decimal digit.
pub open spec fn digit_char(d: nat) -> char {
    seq!['0', '1', '2', '3', '4', '5', '6', '7', '8', '9'][d as int]
}

/// The decimal notation of `n`, without leading zeros.
pub open spec fn decimal(n: nat) -> Seq<char>
    decreases n,
{
    if n < 10 {
        seq![digit_char(n)]
    } else {
        decimal(n / 10).push(digit_char(n % 10))
    }
}

/// `{page}.{ext}`: the file name of a page's artifact inside the document's namespace.
pub open spec fn file_name_spec(page: nat, kind: ArtifactKind) -> Seq<char> {
    decimal(page) + seq!['.'] + kind.ext()
}

/// `{hash}/{page}.{ext}`: the storage key of a page's artifact.
pub open spec fn storage_key_spec(hash: Seq<char>, page: nat, kind: ArtifactKind) -> Seq<char> {
    hash + seq!['/'] + file_name_spec(page, kind)
}

fn digit_str(d: usize) -> (r: &'static str)
    requires
        d < 10,
    ensures
        r@ == seq![digit_char(d as nat)],
{
    proof {
        reveal_strlit("0");
        reveal_strlit("1");
        reveal_strlit("2");
        reveal_strlit("3");
        reveal_strlit("4");
        reveal_strlit("5");
        reveal_strlit("6");
        reveal_strlit("7");
        reveal_strlit("8");
        reveal_strlit("9");
    }
    if d == 0 {
        "0"
    } else if d == 1 {
        "1"
    } else if d == 2 {
        "2"
    } else if d == 3 {
        "3"
    } else if d == 4 {
        "4"
    } else if d == 5 {
        "5"
    } else if d == 6 {
        "6"
    } else if d == 7 {
        "7"
    } else if d == 8 {
        "8"
    } else {
        "9"
    }
}

/// Appends the decimal notation of `n` to `s`.
pub fn push_decimal(s: &mut String, n: usize)
    ensures
        final(s)@ == old(s)@ + decimal(n as nat),
    decreases n,
{
    if n >= 10 {
        push_decimal(s, n / 10);
    }
    s.append(digit_str(n % 10));
    assert(n >= 10 ==> decimal(n as nat) == decimal((n / 10) as nat).push(digit_char((n % 10) as nat)));
}

fn ext_str(kind: ArtifactKind) -> (r: &'static str)
    ensures
        r@ == kind.ext(),
{
    proof {
        reveal_strlit("jpg");
        reveal_strlit("txt");
        reveal_strlit("mp3");
    }
    match kind {
        ArtifactKind::Image => "jpg",
        ArtifactKind::Text => "txt",
        ArtifactKind::Audio => "mp3",
    }
}

/// The file name `{page}.{ext}` of a page's artifact.
pub fn file_name(page: usize, kind: ArtifactKind) -> (r: String)
    ensures
        r@ == file_name_spec(page as nat, kind),
{
    let mut s = String::new();
    push_decimal(&mut s, page);
    proof {
        reveal_strlit(".");
    }
    s.append(".");
    s.append(ext_str(kind));
    assert(s@ == file_name_spec(page as nat, kind));
    s
}

/// The storage key `{hash}/{page}.{ext}` of a page's artifact.
pub fn storage_key(hash: &str, page: usize, kind: ArtifactKind) -> (r: String)
    ensures
        r@ == storage_key_spec(hash@, page as nat, kind),
{
    let mut s = String::from_str(hash);
    proof {
        reveal_strlit("/");
    }
    s.append("/");
    let name = file_name(page, kind);
    s.append(name.as_str());
    assert(s@ == storage_key_spec(hash@, page as nat, kind));
    s
}

} // verus!
