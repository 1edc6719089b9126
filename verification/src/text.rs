//! String generators: one draws code points uniformly, the other assembles
//! words from a fixed multi-script sample corpus until a target length is
//! reached.

use vstd::prelude::*;

use vstd::string::StrSliceExecFns;
use vstd::string::StringExecFns;

use crate::sizing::small_n;
use crate::source;
use crate::Arbitrary;

verus! {

#[derive(PartialEq, Eq, Clone, Debug, Hash)]
pub struct Unicode(pub String);

/// The words of the fixed sample corpus, together with its separator
/// tokens.
pub open spec fn corpus() -> Set<Seq<char>> {
    set![
        "a"@,
        "b"@,
        "c"@,
        "0"@,
        "$"@,
        "\u{21cc}"@,
        "[\u{2c8}\u{28f}psil\u{254}n]"@,
        "\\"@,
        "\""@,
        "\u{201a}dsch\u{2018}"@,
        "\u{201e}f\u{fc}h\u{201c}"@,
        "\u{2021}"@,
        "\u{20ac}"@,
        "\u{207f}"@,
        "\u{ff12}"@,
        "\u{fffd}"@,
        "\u{1f218}"@,
        "\u{1f00}\u{3c0}\u{1f78}"@,
        "\u{441}\u{43e}\u{441}\u{442}\u{43e}\u{438}\u{442}\u{441}\u{44f}"@,
        "\u{e17}\u{e23}\u{e07}\u{e19}\u{e31}\u{e1a}\u{e16}\u{e37}\u{e2d}\u{e02}\u{e31}\u{e19}\u{e17}\u{e35}\u{e40}\u{e1b}\u{e47}\u{e19}\u{e17}\u{e35}\u{e48}\u{e1e}\u{e36}\u{e48}\u{e07}"@,
        "Hello"@,
        "world"@,
        "\u{39a}\u{3b1}\u{3bb}\u{3b7}\u{3bc}\u{3ad}\u{3c1}\u{3b1}"@,
        "\u{3ba}\u{3cc}\u{3c3}\u{3bc}\u{3b5}"@,
        "\u{30b3}\u{30f3}\u{30cb}\u{30c1}\u{30cf}"@,
        " "@,
        "\n"@,
    ]
}

/// The string is a concatenation of whole corpus words and separator
/// tokens, with nothing added between draws.
pub open spec fn built_from_corpus(s: Seq<char>) -> bool {
    exists|parts: Seq<Seq<char>>|
        {
            &&& s == #[trigger] parts.flatten()
            &&& forall|k: int| 0 <= k < parts.len() ==> corpus().contains(parts[k])
        }
}

/// The fixed sample corpus, word by word, followed by the separator tokens:
/// two spaces and one newline, so the newline is drawn once per three
/// separator choices. The corpus mixes symbols, punctuation and several
/// scripts, to stress encoding boundaries in consumers.
fn sample_words() -> (words: Vec<&'static str>)
    ensures
        words@.len() >= 1,
        forall|j: int| 0 <= j < words@.len() ==> words@[j]@.len() >= 1,
        forall|j: int| 0 <= j < words@.len() ==> corpus().contains(#[trigger] words@[j]@),
{
    proof {
        reveal_strlit("a");
        reveal_strlit("b");
        reveal_strlit("c");
        reveal_strlit("0");
        reveal_strlit("$");
        reveal_strlit("\u{21cc}");
        reveal_strlit("[\u{2c8}\u{28f}psil\u{254}n]");
        reveal_strlit("\\");
        reveal_strlit("\"");
        reveal_strlit("\u{201a}dsch\u{2018}");
        reveal_strlit("\u{201e}f\u{fc}h\u{201c}");
        reveal_strlit("\u{2021}");
        reveal_strlit("\u{20ac}");
        reveal_strlit("\u{207f}");
        reveal_strlit("\u{ff12}");
        reveal_strlit("\u{fffd}");
        reveal_strlit("\u{1f218}");
        reveal_strlit("\u{1f00}\u{3c0}\u{1f78}");
        reveal_strlit("\u{441}\u{43e}\u{441}\u{442}\u{43e}\u{438}\u{442}\u{441}\u{44f}");
        reveal_strlit(
            "\u{e17}\u{e23}\u{e07}\u{e19}\u{e31}\u{e1a}\u{e16}\u{e37}\u{e2d}\u{e02}\u{e31}\u{e19}\u{e17}\u{e35}\u{e40}\u{e1b}\u{e47}\u{e19}\u{e17}\u{e35}\u{e48}\u{e1e}\u{e36}\u{e48}\u{e07}",
        );
        reveal_strlit("Hello");
        reveal_strlit("world");
        reveal_strlit("\u{39a}\u{3b1}\u{3bb}\u{3b7}\u{3bc}\u{3ad}\u{3c1}\u{3b1}");
        reveal_strlit("\u{3ba}\u{3cc}\u{3c3}\u{3bc}\u{3b5}");
        reveal_strlit("\u{30b3}\u{30f3}\u{30cb}\u{30c1}\u{30cf}");
        reveal_strlit(" ");
        reveal_strlit("\n");
    }
    let mut words: Vec<&'static str> = Vec::new();
    words.push("a");
    words.push("b");
    words.push("c");
    words.push("0");
    words.push("$");
    words.push("\u{21cc}");
    words.push("[\u{2c8}\u{28f}psil\u{254}n]");
    words.push("\\");
    words.push("\"");
    words.push("\u{201a}dsch\u{2018}");
    words.push("\u{201e}f\u{fc}h\u{201c}");
    words.push("\u{2021}");
    words.push("\u{20ac}");
    words.push("\u{207f}");
    words.push("\u{ff12}");
    words.push("\u{fffd}");
    words.push("\u{1f218}");
    words.push("\u{1f00}\u{3c0}\u{1f78}");
    words.push("\u{441}\u{43e}\u{441}\u{442}\u{43e}\u{438}\u{442}\u{441}\u{44f}");
    words.push(
        "\u{e17}\u{e23}\u{e07}\u{e19}\u{e31}\u{e1a}\u{e16}\u{e37}\u{e2d}\u{e02}\u{e31}\u{e19}\u{e17}\u{e35}\u{e40}\u{e1b}\u{e47}\u{e19}\u{e17}\u{e35}\u{e48}\u{e1e}\u{e36}\u{e48}\u{e07}",
    );
    words.push("Hello");
    words.push("world");
    words.push("\u{39a}\u{3b1}\u{3bb}\u{3b7}\u{3bc}\u{3ad}\u{3c1}\u{3b1}");
    words.push("\u{3ba}\u{3cc}\u{3c3}\u{3bc}\u{3b5}");
    words.push("\u{30b3}\u{30f3}\u{30cb}\u{30c1}\u{30cf}");
    words.push(" ");
    words.push(" ");
    words.push("\n");
    words
}

/// Assemble a string of at least `len` characters: append one uniformly
/// chosen corpus word (or separator token) at a time until the accumulated
/// length reaches `len`. A zero target returns the empty string.
pub fn gen_unicode_str(len: usize) -> (s: String)
    ensures
        s@.len() >= len,
        len == 0 ==> s@.len() == 0,
        built_from_corpus(s@),
{
    let words = sample_words();
    let mut res = String::new();
    let mut n: usize = 0;
    let ghost mut parts: Seq<Seq<char>> = Seq::empty();
    while n < len
        invariant
            n == res@.len(),
            len == 0 ==> n == 0,
            words@.len() >= 1,
            forall|j: int| 0 <= j < words@.len() ==> words@[j]@.len() >= 1,
            forall|j: int| 0 <= j < words@.len() ==> corpus().contains(#[trigger] words@[j]@),
            res@ == parts.flatten(),
            forall|k: int| 0 <= k < parts.len() ==> corpus().contains(#[trigger] parts[k]),
        decreases (if n <= len { len - n } else { 0int }),
    {
        let i = source::choose_index(words.len());
        res.append(words[i]);
        n = res.as_str().unicode_len();
        proof {
            parts.lemma_flatten_push(words@[i as int]@);
            parts = parts.push(words@[i as int]@);
            assert(res@ =~= parts.flatten());
        }
    }
    res
}

impl Arbitrary for String {
    /// At most `16 * size` characters, drawn uniformly from the Unicode
    /// scalar values.
    open spec fn fits(self, size: nat) -> bool {
        self@.len() <= 16 * size
    }

    fn arbitrary(sz: usize) -> (r: String) {
        let n = small_n(sz);
        source::random_string(n)
    }
}

impl Arbitrary for Unicode {
    /// The string is assembled from whole corpus words. The target length is
    /// itself a fresh bounded draw and whole words may overshoot it, so no
    /// bound relates the final length to the size factor alone.
    open spec fn fits(self, size: nat) -> bool {
        built_from_corpus(self.0@)
    }

    fn arbitrary(sz: usize) -> (r: Unicode) {
        let n = small_n(sz);
        Unicode(gen_unicode_str(n))
    }
}

} // verus!
