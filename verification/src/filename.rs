//! Turning a proposed file name into one that is valid and not yet taken.

use vstd::prelude::*;
use vstd::string::*;
use crate::text::{
    decimal, find_last, lemma_decimal_digits, lemma_last_index_of, owned, push_char, push_decimal,
    push_text, replace_char, same_text, replaced, last_index_of, lemma_decimal_injective,
    lemma_replaced_lacks,
};

verus! {

/// The name with every `/` replaced by `_`, so that it names a file in the
/// current directory.
pub open spec fn sanitized(f: Seq<char>) -> Seq<char> {
    replaced(f, '/', '_')
}

/// Whether a (slash-free) name splits into a file stem and an extension:
/// it has a `.` after its first character and is not `..`.
pub open spec fn has_stem_and_extension(n: Seq<char>) -> bool {
    &&& last_index_of(n, '.') > 0
    &&& n != seq!['.', '.']
}

/// The part of the name before its last `.`.
pub open spec fn stem(n: Seq<char>) -> Seq<char> {
    n.subrange(0, last_index_of(n, '.'))
}

/// The part of the name after its last `.`.
pub open spec fn extension(n: Seq<char>) -> Seq<char> {
    n.subrange(last_index_of(n, '.') + 1, n.len() as int)
}

/// The `k`-th name tried for `n`: `n` itself first, then `stem_k.extension`.
pub open spec fn candidate(n: Seq<char>, k: nat) -> Seq<char> {
    if k == 0 {
        n
    } else {
        stem(n) + seq!['_'] + decimal(k) + seq!['.'] + extension(n)
    }
}

/// Whether a file of this name exists in the current directory
/// (`std::path::Path::exists`). The answer depends on the disk, so nothing
/// is promised of it.
#[verifier::external_body]
fn path_exists(name: &str) -> bool {
    std::path::Path::new(name).exists()
}

/// The name with `/` replaced by `_`.
pub fn valid_filename(f: &str) -> (r: String)
    ensures
        r@ == sanitized(f@),
{
    replace_char(f, '/', '_')
}

/// Whether `f`, with `/` replaced by `_`, splits into a stem and an
/// extension, as [`uniq_valid_filename`] needs.
pub fn splits_at_extension(f: &str) -> (r: bool)
    requires
        f@.len() < i64::MAX,
    ensures
        r == has_stem_and_extension(sanitized(f@)),
        forall|s: Seq<char>, e: Seq<char>|
            #![trigger s + seq!['.'] + e]
            sanitized(f@) == s + seq!['.'] + e && s.len() > 0 && !e.contains('.') && sanitized(f@)
                != seq!['.', '.'] ==> r,
{
    proof {
        assert forall|s: Seq<char>, e: Seq<char>|
            #![trigger s + seq!['.'] + e]
            sanitized(f@) == s + seq!['.'] + e && s.len() > 0 && !e.contains('.') && sanitized(f@)
                != seq!['.', '.'] implies has_stem_and_extension(sanitized(f@)) by {
            lemma_split_name(s, e);
        }
    }
    let name = valid_filename(f);
    let dot = find_last(name.as_str(), '.');
    proof {
        reveal_strlit("..");
        assert(".."@ =~= seq!['.', '.']);
    }
    dot > 0 && !same_text(name.as_str(), "..")
}

/// The `k`-th name that [`uniq_valid_filename`] tries for `f`.
pub fn candidate_filename(f: &str, k: u64) -> (r: String)
    requires
        has_stem_and_extension(sanitized(f@)),
        f@.len() < i64::MAX,
    ensures
        r@ == candidate(sanitized(f@), k as nat),
        k == 0 ==> r@ == sanitized(f@),
        forall|s: Seq<char>, e: Seq<char>|
            #![trigger s + seq!['.'] + e]
            sanitized(f@) == s + seq!['.'] + e && s.len() > 0 && !e.contains('.') && k > 0 ==> r@ == s
                + seq!['_'] + decimal(k as nat) + seq!['.'] + e,
{
    proof {
        assert forall|s: Seq<char>, e: Seq<char>|
            #![trigger s + seq!['.'] + e]
            sanitized(f@) == s + seq!['.'] + e && s.len() > 0 && !e.contains('.') && k > 0 implies candidate(
                sanitized(f@),
                k as nat,
            ) == s + seq!['_'] + decimal(k as nat) + seq!['.'] + e by {
            lemma_split_name(s, e);
        }
    }
    let name = valid_filename(f);
    if k == 0 {
        return name;
    }
    let n = name.as_str();
    let dot = find_last(n, '.');
    proof { lemma_last_index_of(n@, '.'); }
    let len = n.unicode_len();
    let stem_part = n.substring_char(0, dot as usize);
    let ext_part = n.substring_char(dot as usize + 1, len);
    let mut r = owned(stem_part);
    push_char(&mut r, '_');
    push_decimal(&mut r, k);
    push_char(&mut r, '.');
    push_text(&mut r, ext_part);
    r
}

/// Whether `taken` answered `answer` when asked about the name.
pub open spec fn answered<F: Fn(&str) -> bool>(taken: F, name: Seq<char>, answer: bool) -> bool {
    exists|s: &str| s@ == name && #[trigger] call_ensures(taken, (s,), answer)
}

/// Whether `r` is the first name for `f` that `taken` called free, asking
/// about the names in order (the count stops at `u64::MAX`).
pub open spec fn first_free<F: Fn(&str) -> bool>(taken: F, f: Seq<char>, r: Seq<char>) -> bool {
    exists|k: nat|
        #![trigger candidate(sanitized(f), k)]
        {
            &&& k <= u64::MAX
            &&& r == candidate(sanitized(f), k)
            &&& k < u64::MAX ==> answered(taken, candidate(sanitized(f), k), false)
            &&& forall|j: nat| j < k ==> answered(taken, #[trigger] candidate(sanitized(f), j), true)
        }
}

/// The first name for `f` that `taken` calls free: `f` with `/` replaced
/// by `_`, then `stem_1.ext`, `stem_2.ext`, and so on.
pub fn first_free_name<F: Fn(&str) -> bool>(f: &str, taken: &F) -> (r: String)
    requires
        has_stem_and_extension(sanitized(f@)),
        f@.len() < i64::MAX,
        forall|s: &str| call_requires(*taken, (s,)),
    ensures
        first_free(*taken, f@, r@),
{
    let mut k: u64 = 0;
    let mut name = candidate_filename(f, 0);
    while k < u64::MAX
        invariant
            has_stem_and_extension(sanitized(f@)),
            f@.len() < i64::MAX,
            forall|s: &str| call_requires(*taken, (s,)),
            name@ == candidate(sanitized(f@), k as nat),
            forall|j: nat| j < k ==> answered(*taken, #[trigger] candidate(sanitized(f@), j), true),
        decreases u64::MAX - k,
    {
        let n = name.as_str();
        let t = taken(n);
        assert(call_ensures(*taken, (n,), t));
        if !t {
            assert(answered(*taken, candidate(sanitized(f@), k as nat), false));
            assert(first_free(*taken, f@, name@)) by {
                assert(name@ == candidate(sanitized(f@), k as nat));
            }
            return name;
        }
        assert(answered(*taken, candidate(sanitized(f@), k as nat), true));
        k = k + 1;
        name = candidate_filename(f, k);
    }
    assert(first_free(*taken, f@, name@)) by {
        assert(name@ == candidate(sanitized(f@), k as nat));
    }
    name
}

/// Whether `r` is the first name for `f` that the disk called free: the
/// first name tried for which `std::path::Path::exists` answered false.
pub closed spec fn first_free_on_disk(f: Seq<char>, r: Seq<char>) -> bool {
    first_free(path_exists, f, r)
}

/// A valid file name for `f` that was not taken when it was checked: the
/// first name of [`first_free_name`] for which no file exists in the
/// current directory (`std::path::Path::exists`).
pub fn uniq_valid_filename(f: &str) -> (r: String)
    requires
        has_stem_and_extension(sanitized(f@)),
        f@.len() < i64::MAX,
    ensures
        first_free_on_disk(f@, r@),
        exists|k: nat| k <= u64::MAX && r@ == candidate(sanitized(f@), k),
        !r@.contains('/'),
{
    let r = first_free_name(f, &path_exists);
    proof {
        let k = choose|k: nat| #![trigger candidate(sanitized(f@), k)] k <= u64::MAX && r@ == candidate(sanitized(f@), k);
        lemma_candidate_has_no_slash(f@, k);
    }
    r
}

/// For an oracle that never gives both answers for one name (such as the
/// disk, left unchanged), the first free name is determined: two searches
/// for the same `f` return the same name.
pub proof fn lemma_first_free_unique<F: Fn(&str) -> bool>(taken: F, f: Seq<char>, r1: Seq<char>, r2: Seq<char>)
    requires
        forall|name: Seq<char>| !(answered(taken, name, true) && answered(taken, name, false)),
        first_free(taken, f, r1),
        first_free(taken, f, r2),
    ensures
        r1 == r2,
{
    let k1 = choose|k: nat|
        #![trigger candidate(sanitized(f), k)]
        {
            &&& k <= u64::MAX
            &&& r1 == candidate(sanitized(f), k)
            &&& k < u64::MAX ==> answered(taken, candidate(sanitized(f), k), false)
            &&& forall|j: nat| j < k ==> answered(taken, #[trigger] candidate(sanitized(f), j), true)
        };
    let k2 = choose|k: nat|
        #![trigger candidate(sanitized(f), k)]
        {
            &&& k <= u64::MAX
            &&& r2 == candidate(sanitized(f), k)
            &&& k < u64::MAX ==> answered(taken, candidate(sanitized(f), k), false)
            &&& forall|j: nat| j < k ==> answered(taken, #[trigger] candidate(sanitized(f), j), true)
        };
    if k1 < k2 {
        assert(answered(taken, candidate(sanitized(f), k1), true));
        assert(answered(taken, candidate(sanitized(f), k1), false));
    } else if k2 < k1 {
        assert(answered(taken, candidate(sanitized(f), k2), true));
        assert(answered(taken, candidate(sanitized(f), k2), false));
    }
}

/// Whether the disk gave one answer per name (it was not changed between
/// the questions).
pub closed spec fn disk_unchanged() -> bool {
    forall|name: Seq<char>| !(answered(path_exists, name, true) && answered(path_exists, name, false))
}

/// Two calls of [`uniq_valid_filename`] for the same name, on a disk that
/// did not change in between, return the same name: a call reserves nothing.
pub proof fn lemma_uniq_calls_agree(f: Seq<char>, r1: Seq<char>, r2: Seq<char>)
    requires
        disk_unchanged(),
        first_free_on_disk(f, r1),
        first_free_on_disk(f, r2),
    ensures
        r1 == r2,
{
    lemma_first_free_unique(path_exists, f, r1, r2);
}

/// A character that is not a digit, `_` or `.` occurs in no name tried for
/// `n` unless it occurs in `n`.
pub proof fn lemma_candidate_lacks(n: Seq<char>, k: nat, c: char)
    requires
        has_stem_and_extension(n),
        !n.contains(c),
        c != '_',
        c != '.',
        !('0' <= c <= '9'),
    ensures
        !candidate(n, k).contains(c),
{
    lemma_last_index_of(n, '.');
    lemma_decimal_digits(k);
    let r = candidate(n, k);
    if r.contains(c) {
        let i = choose|i: int| 0 <= i < r.len() && r[i] == c;
        if k == 0 {
            assert(n[i] == c);
        } else {
            let s = stem(n);
            let d = decimal(k);
            if i < s.len() {
                assert(r[i] == n[i]);
            } else if i == s.len() {
            } else if i < s.len() + 1 + d.len() {
                assert(r[i] == d[i - s.len() - 1]);
            } else if i == s.len() + 1 + d.len() {
            } else {
                assert(r[i] == n[i - s.len() - 2 - d.len() + last_index_of(n, '.') + 1]);
            }
        }
    }
}

/// No name tried for `f` holds a `/`.
pub proof fn lemma_candidate_has_no_slash(f: Seq<char>, k: nat)
    requires
        has_stem_and_extension(sanitized(f)),
    ensures
        !candidate(sanitized(f), k).contains('/'),
{
    lemma_replaced_lacks(f, '/', '_');
    lemma_candidate_lacks(sanitized(f), k, '/');
}

/// A file name without spaces is saved under a name without spaces and
/// without `/`, whatever the retry.
pub proof fn lemma_saved_name_clean(f: Seq<char>, k: nat)
    requires
        !f.contains(' '),
        has_stem_and_extension(sanitized(f)),
    ensures
        !candidate(sanitized(f), k).contains(' '),
        !candidate(sanitized(f), k).contains('/'),
{
    let n = sanitized(f);
    if n.contains(' ') {
        let i = choose|i: int| 0 <= i < n.len() && n[i] == ' ';
        assert(n[i] == (if f[i] == '/' { '_' } else { f[i] }));
    }
    lemma_candidate_lacks(n, k, ' ');
    lemma_candidate_has_no_slash(f, k);
}

/// A name made of a non-empty part, a `.`, and a part without `.` splits at
/// that `.`: the first part is its stem and the second its extension,
/// whatever dots the first part holds (the name `..` aside).
pub proof fn lemma_split_name(s: Seq<char>, e: Seq<char>)
    requires
        s.len() > 0,
        !e.contains('.'),
        s + seq!['.'] + e != seq!['.', '.'],
    ensures
        last_index_of(s + seq!['.'] + e, '.') == s.len(),
        has_stem_and_extension(s + seq!['.'] + e),
        stem(s + seq!['.'] + e) == s,
        extension(s + seq!['.'] + e) == e,
{
    let n = s + seq!['.'] + e;
    lemma_last_index_of(n, '.');
    let li = last_index_of(n, '.');
    assert(n[s.len() as int] == '.');
    if li > s.len() {
        assert(n[li] == e[li - s.len() - 1]);
        assert(e.contains('.'));
    }
    assert(li == s.len());
    assert(stem(n) =~= s);
    assert(extension(n) =~= e);
}

/// Replacing `/` a second time changes nothing: a valid name stays as it is.
pub proof fn lemma_sanitized_idempotent(f: Seq<char>)
    ensures
        sanitized(sanitized(f)) == sanitized(f),
{
    assert(sanitized(sanitized(f)) =~= sanitized(f));
}

/// The names tried for different counts differ, so every retry proposes a
/// name that was not proposed before.
pub proof fn lemma_candidates_distinct(f: Seq<char>, j: nat, k: nat)
    requires
        has_stem_and_extension(sanitized(f)),
        j != k,
    ensures
        candidate(sanitized(f), j) != candidate(sanitized(f), k),
{
    let n = sanitized(f);
    lemma_last_index_of(n, '.');
    lemma_decimal_digits(j);
    lemma_decimal_digits(k);
    let li = last_index_of(n, '.');
    assert(stem(n).len() == li);
    assert(extension(n).len() == n.len() - li - 1);
    if j != 0 {
        assert(candidate(n, j).len() == n.len() + 1 + decimal(j).len());
    }
    if k != 0 {
        assert(candidate(n, k).len() == n.len() + 1 + decimal(k).len());
    }
    if j != 0 && k != 0 {
        let s = stem(n);
        let e = extension(n);
        let dj = decimal(j);
        let dk = decimal(k);
        let cj = candidate(n, j);
        let ck = candidate(n, k);
        if cj == ck && dj.len() == dk.len() {
            let lo = s.len() + 1;
            let hi = lo + dj.len();
            assert(cj.subrange(lo as int, hi as int) =~= dj);
            assert(ck.subrange(lo as int, hi as int) =~= dk);
            lemma_decimal_injective(j, k);
        }
    }
}

} // verus!
