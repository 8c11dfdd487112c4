//! Recognising text that a speech model emits on silence or noise rather
//! than on speech. The markers and filler words are data: extending them
//! changes no control flow.
use vstd::prelude::*;
use crate::text::{
    chars_of, contains, contains_seq, count_occurrences, occurrences, trim, trim_bounds,
    white_space, is_white_space,
};

verus! {

/// What `str::to_lowercase` returns for a string.
pub uninterp spec fn lower_of(s: Seq<char>) -> Seq<char>;

/// Whether `char::is_alphabetic` holds of a character.
pub uninterp spec fn alphabetic(c: char) -> bool;

/// Relies on `str::to_lowercase`: the Unicode lower-case mapping of `s`,
/// which depends on the characters alone.
#[verifier::external_body]
fn to_lower(s: &str) -> (r: String)
    ensures
        r@ == lower_of(s@),
{
    s.to_lowercase()
}

/// Relies on `char::is_alphabetic`: the Unicode `Alphabetic` property.
#[verifier::external_body]
fn is_alpha(c: char) -> (r: bool)
    ensures
        r == alphabetic(c),
{
    c.is_alphabetic()
}

/// Markers of non-speech output, matched as substrings of lower-cased text.
pub open spec fn marker_strs() -> Seq<&'static str> {
    seq![
        "[music", "(music", "â™ª", "ðŸŽµ", "[blank_audio]", "[silence", "(silence", "[audio",
        "(audio", "[sigh", "(sigh", "[crying", "(crying", "[laughter", "(laughter", "[applause",
        "(applause", "[noise", "(noise", "[inaudible", "(inaudible", "[unintelligible",
        "(unintelligible", "[background", "(background", "[ambient", "(ambient", "[static",
        "(static", "[breathing", "(breathing", "[cough", "(cough", "[sneeze", "(sneeze",
        "[whisper", "(whisper", "[mumbl", "(mumbl", "[squeak", "(squeak", "[click", "(click",
        "[beep", "(beep", "[tone", "(tone", "[bell", "(bell", "[ring", "(ring", "[dramatic",
        "(dramatic", "[sad", "(sad", "[happy", "(happy", "[whistl", "(whistl", "[humm", "(humm",
        "[mimick", "(mimick", "[speaking", "(speaking", "[foreign", "(foreign", "[xbox", "(xbox",
        "[windows", "(windows", "...", "shh", "shhh", "hmm", "hush", "fash", "shook", "whoosh",
        "air whoosh", "you are the only", "your house", "i'll show you", "yet the few",
        "a few days", "and you have", "thank you", "thanks for", "bye", "goodbye", "i'm sorry",
        "sorry", "please come", "come forward", "famous for", "you will be",
    ]
}

fn markers() -> (r: Vec<&'static str>)
    ensures
        r@ == marker_strs(),
{
    vec![
        "[music", "(music", "â™ª", "ðŸŽµ", "[blank_audio]", "[silence", "(silence", "[audio",
        "(audio", "[sigh", "(sigh", "[crying", "(crying", "[laughter", "(laughter", "[applause",
        "(applause", "[noise", "(noise", "[inaudible", "(inaudible", "[unintelligible",
        "(unintelligible", "[background", "(background", "[ambient", "(ambient", "[static",
        "(static", "[breathing", "(breathing", "[cough", "(cough", "[sneeze", "(sneeze",
        "[whisper", "(whisper", "[mumbl", "(mumbl", "[squeak", "(squeak", "[click", "(click",
        "[beep", "(beep", "[tone", "(tone", "[bell", "(bell", "[ring", "(ring", "[dramatic",
        "(dramatic", "[sad", "(sad", "[happy", "(happy", "[whistl", "(whistl", "[humm", "(humm",
        "[mimick", "(mimick", "[speaking", "(speaking", "[foreign", "(foreign", "[xbox", "(xbox",
        "[windows", "(windows", "...", "shh", "shhh", "hmm", "hush", "fash", "shook", "whoosh",
        "air whoosh", "you are the only", "your house", "i'll show you", "yet the few",
        "a few days", "and you have", "thank you", "thanks for", "bye", "goodbye", "i'm sorry",
        "sorry", "please come", "come forward", "famous for", "you will be",
    ]
}

/// Common filler words: an utterance of at most three words made only of
/// these is rejected.
pub open spec fn filler_strs() -> Seq<&'static str> {
    seq!["and", "the", "a", "an", "to", "of", "in", "is", "it", "you", "i"]
}

fn fillers() -> (r: Vec<&'static str>)
    ensures
        r@ == filler_strs(),
{
    vec!["and", "the", "a", "an", "to", "of", "in", "is", "it", "you", "i"]
}

/// Whether `t` contains one of the non-speech markers.
pub open spec fn has_marker(t: Seq<char>) -> bool {
    exists|k: int| 0 <= k < marker_strs().len() && contains(t, marker_strs()[k]@)
}

/// Whether `w` is one of the filler words.
pub open spec fn is_filler(w: Seq<char>) -> bool {
    exists|k: int| 0 <= k < filler_strs().len() && filler_strs()[k]@ == w
}

/// Number of alphabetic characters among the first `n` of `t`.
pub open spec fn alpha_count_below(t: Seq<char>, n: int) -> nat
    decreases n,
{
    if n <= 0 {
        0
    } else {
        alpha_count_below(t, n - 1) + if alphabetic(t[n - 1]) {
            1nat
        } else {
            0nat
        }
    }
}

/// Splitting the first `n` characters of `t` at whitespace: the words
/// completed so far and the word in progress.
pub open spec fn split_prefix(t: Seq<char>, n: int) -> (Seq<Seq<char>>, Seq<char>)
    decreases n,
{
    if n <= 0 {
        (seq![], seq![])
    } else {
        let (done, cur) = split_prefix(t, n - 1);
        let c = t[n - 1];
        if white_space(c) {
            if cur.len() > 0 {
                (done.push(cur), seq![])
            } else {
                (done, cur)
            }
        } else {
            (done, cur.push(c))
        }
    }
}

/// The whitespace-separated words of `t`.
pub open spec fn words(t: Seq<char>) -> Seq<Seq<char>> {
    let (done, cur) = split_prefix(t, t.len() as int);
    if cur.len() > 0 {
        done.push(cur)
    } else {
        done
    }
}

/// Whether `t` is at most three words, all of them filler words.
pub open spec fn only_fillers(t: Seq<char>) -> bool {
    let ws = words(t);
    ws.len() <= 3 && forall|k: int| 0 <= k < ws.len() ==> is_filler(ws[k])
}

/// Whether trimmed, lower-cased text `t`, holding `letters` alphabetic
/// characters, is a hallucination: it holds a non-speech marker, is at most
/// two characters long, has fewer than three letters, holds "and" three or
/// more times, or is at most three filler words.
pub open spec fn hallucinated_counted(t: Seq<char>, letters: nat) -> bool {
    has_marker(t) || t.len() <= 2 || letters < 3 || occurrences(t, "and"@) >= 3 || only_fillers(
        t,
    )
}

/// Whether trimmed, lower-cased text `t` is a hallucination.
pub open spec fn hallucinated(t: Seq<char>) -> bool {
    hallucinated_counted(t, alpha_count_below(t, t.len() as int))
}

fn str_eq_chars(a: &str, b: &Vec<char>) -> (r: bool)
    ensures
        r == (a@ == b@),
{
    let av = chars_of(a);
    if av.len() != b.len() {
        return false;
    }
    let mut i: usize = 0;
    while i < av.len()
        invariant
            av@ == a@,
            av@.len() == b@.len(),
            i <= av@.len(),
            forall|k: int| 0 <= k < i ==> av@[k] == b@[k],
        decreases av@.len() - i,
    {
        if av[i] != b[i] {
            return false;
        }
        i = i + 1;
    }
    assert(av@ =~= b@);
    true
}

fn filler_word(w: &Vec<char>) -> (r: bool)
    ensures
        r == is_filler(w@),
{
    let fs = fillers();
    let mut k: usize = 0;
    while k < fs.len()
        invariant
            fs@ == filler_strs(),
            k <= fs@.len(),
            forall|j: int| 0 <= j < k ==> filler_strs()[j]@ != w@,
        decreases fs@.len() - k,
    {
        if str_eq_chars(fs[k], w) {
            return true;
        }
        k = k + 1;
    }
    false
}

fn marker_in(t: &Vec<char>) -> (r: bool)
    ensures
        r == has_marker(t@),
{
    let ms = markers();
    let mut k: usize = 0;
    while k < ms.len()
        invariant
            ms@ == marker_strs(),
            k <= ms@.len(),
            forall|j: int| 0 <= j < k ==> !contains(t@, marker_strs()[j]@),
        decreases ms@.len() - k,
    {
        let p = chars_of(ms[k]);
        if contains_seq(t, &p) {
            return true;
        }
        k = k + 1;
    }
    false
}

fn alpha_count(t: &Vec<char>) -> (r: usize)
    ensures
        r == alpha_count_below(t@, t@.len() as int),
{
    let mut i: usize = 0;
    let mut n: usize = 0;
    while i < t.len()
        invariant
            i <= t@.len(),
            n == alpha_count_below(t@, i as int),
            n <= i,
        decreases t@.len() - i,
    {
        if is_alpha(t[i]) {
            n = n + 1;
        }
        i = i + 1;
    }
    n
}

fn few_filler_words(t: &Vec<char>) -> (r: bool)
    ensures
        r == only_fillers(t@),
{
    let mut count: usize = 0;
    let mut all_fillers = true;
    let mut cur: Vec<char> = Vec::new();
    let mut i: usize = 0;
    while i < t.len()
        invariant
            i <= t@.len(),
            count == split_prefix(t@, i as int).0.len(),
            count + cur@.len() <= i,
            cur@ == split_prefix(t@, i as int).1,
            all_fillers == forall|k: int|
                0 <= k < count ==> is_filler(#[trigger] split_prefix(t@, i as int).0[k]),
        decreases t@.len() - i,
    {
        let c = t[i];
        let ghost before = split_prefix(t@, i as int);
        let ghost after = split_prefix(t@, i + 1);
        if is_white_space(c) {
            if cur.len() > 0 {
                let f = filler_word(&cur);
                let ghost old_all = all_fillers;
                let ghost word = cur@;
                all_fillers = all_fillers && f;
                count = count + 1;
                cur = Vec::new();
                proof {
                    assert(after.0 == before.0.push(word));
                    assert(after.1 == cur@);
                    if all_fillers {
                        assert forall|k: int| 0 <= k < count implies is_filler(
                            #[trigger] after.0[k],
                        ) by {
                            if k < count - 1 {
                                assert(after.0[k] == before.0[k]);
                            }
                        }
                    } else if !old_all {
                        let k = choose|k: int| 0 <= k < count - 1 && !is_filler(before.0[k]);
                        assert(after.0[k] == before.0[k]);
                    } else {
                        assert(after.0[count - 1] == word);
                    }
                }
            } else {
                assert(after == before);
            }
        } else {
            cur.push(c);
            assert(after.0 == before.0);
        }
        i = i + 1;
    }
    let ghost fin = split_prefix(t@, t@.len() as int);
    if cur.len() > 0 {
        let f = filler_word(&cur);
        let ghost old_all = all_fillers;
        count = count + 1;
        all_fillers = all_fillers && f;
        proof {
            let ws = words(t@);
            assert(ws == fin.0.push(fin.1));
            if all_fillers {
                assert forall|k: int| 0 <= k < ws.len() implies is_filler(#[trigger] ws[k]) by {
                    if k < count - 1 {
                        assert(ws[k] == fin.0[k]);
                    }
                }
            } else if !old_all {
                let k = choose|k: int| 0 <= k < count - 1 && !is_filler(fin.0[k]);
                assert(ws[k] == fin.0[k]);
            } else {
                assert(ws[count - 1] == fin.1);
            }
        }
    } else {
        assert(words(t@) == fin.0);
    }
    count <= 3 && all_fillers
}

/// The characters of `s` without leading and trailing whitespace.
fn trimmed_chars(s: &str) -> (r: Vec<char>)
    ensures
        r@ == trim(s@),
{
    let all = chars_of(s);
    let (a, b) = trim_bounds(&all);
    let mut t: Vec<char> = Vec::new();
    let mut i: usize = a;
    while i < b
        invariant
            a <= i <= b <= all@.len(),
            t@ == all@.subrange(a as int, i as int),
        decreases b - i,
    {
        t.push(all[i]);
        i = i + 1;
    }
    t
}

/// Whether already lower-cased text, once trimmed, is a hallucination, given
/// the number of alphabetic characters it holds.
pub fn is_hallucination_counted(lower: &str, letters: usize) -> (r: bool)
    ensures
        r == hallucinated_counted(trim(lower@), letters as nat),
{
    let t = trimmed_chars(lower);
    let and_word: Vec<char> = chars_of("and");
    let marked = marker_in(&t);
    let short = t.len() <= 2;
    let few_letters = letters < 3;
    let repeated = count_occurrences(&t, &and_word) >= 3;
    let fillers_only = few_filler_words(&t);
    marked || short || few_letters || repeated || fillers_only
}

/// Whether already lower-cased text is a hallucination once trimmed.
pub fn is_hallucination_lowered(lower: &str) -> (r: bool)
    ensures
        r == hallucinated(trim(lower@)),
{
    let t = trimmed_chars(lower);
    let letters = alpha_count(&t);
    is_hallucination_counted(lower, letters)
}

/// Whether `text` looks like output of the speech model on silence or noise.
pub fn is_hallucination(text: &str) -> (r: bool)
    ensures
        r == hallucinated(trim(lower_of(text@))),
{
    let lower = to_lower(text);
    is_hallucination_lowered(lower.as_str())
}

} // verus!
