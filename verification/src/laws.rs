//! What holds of every environment and of every string.

use vstd::prelude::*;
use crate::error::Failure;
use crate::text::run_from;
use crate::text::trim;
use crate::token::comment_close;
use crate::token::concat;
use crate::token::element_at;
use crate::token::elements;
use crate::token::elements_from;
use crate::token::expand_text;
use crate::token::is_token_char;
use crate::token::pair_at;
use crate::token::piece;
use crate::token::plain_chars;
use crate::token::token_chars;
use crate::token::Element;
use crate::value::Json;
use crate::vars::frame_get;
use crate::vars::frame_has;
use crate::vars::key_index;
use crate::vars::parents_get;
use crate::vars::Frame;
use crate::vars::Vars;

verus! {

/// Where the search for a key in a frame ends: no entry before that index
/// has the key, and the entry at it, if there is one, has it.
pub proof fn lemma_key_index(frame: Frame, key: Seq<char>, from: int)
    requires
        0 <= from <= frame.len(),
    ensures
        from <= key_index(frame, key, from) <= frame.len(),
        forall|j: int| from <= j < key_index(frame, key, from) ==> frame[j].0 != key,
        key_index(frame, key, from) < frame.len() ==> frame[key_index(frame, key, from)].0 == key,
    decreases frame.len() - from,
{
    if from < frame.len() && frame[from].0 != key {
        lemma_key_index(frame, key, from + 1);
    }
}

/// A frame binds a key exactly when it holds an entry with it.
pub proof fn lemma_frame_get(frame: Frame, key: Seq<char>)
    ensures
        frame_get(frame, key) is Some <==> frame_has(frame, key),
{
    lemma_key_index(frame, key, 0);
    let i = key_index(frame, key, 0);
    if i < frame.len() {
        assert(frame[i].0 == key);
    }
}

/// Whether `i` is the newest of the frames that hold `key`.
pub open spec fn newest_with(parents: Seq<Frame>, key: Seq<char>, i: int) -> bool {
    0 <= i < parents.len() && frame_has(parents[i], key) && forall|j: int|
        i < j < parents.len() ==> !frame_has(#[trigger] parents[j], key)
}

/// Looking a key up in the parent frames gives the value of the newest
/// frame that holds it, and nothing exactly when none holds it.
pub proof fn lemma_parents_get(parents: Seq<Frame>, key: Seq<char>)
    ensures
        parents_get(parents, key) is None <==> forall|i: int|
            0 <= i < parents.len() ==> !frame_has(#[trigger] parents[i], key),
        parents_get(parents, key) is Some ==> exists|i: int|
            newest_with(parents, key, i) && parents_get(parents, key) == frame_get(
                parents[i],
                key,
            ),
    decreases parents.len(),
{
    if parents.len() > 0 {
        let last = parents.len() - 1;
        lemma_frame_get(parents.last(), key);
        if frame_get(parents.last(), key) is Some {
            assert(newest_with(parents, key, last));
        } else {
            let rest = parents.drop_last();
            lemma_parents_get(rest, key);
            assert forall|i: int| 0 <= i < rest.len() implies rest[i] == parents[i] by {}
            if parents_get(rest, key) is Some {
                let i = choose|i: int|
                    newest_with(rest, key, i) && parents_get(rest, key) == frame_get(rest[i], key);
                assert(newest_with(parents, key, i)) by {
                    assert forall|j: int| i < j < parents.len() implies !frame_has(
                        #[trigger] parents[j],
                        key,
                    ) by {
                        if j < rest.len() {
                            assert(rest[j] == parents[j]);
                        }
                    }
                }
            } else {
                assert forall|i: int| 0 <= i < parents.len() implies !frame_has(
                    #[trigger] parents[i],
                    key,
                ) by {
                    if i < rest.len() {
                        assert(rest[i] == parents[i]);
                    }
                }
            }
        }
    }
}

/// Shadowing: the value of a key is that of the local frame if it holds
/// the key, else that of the newest parent frame that holds it; and a key
/// is unknown exactly when no frame holds it.
pub proof fn lemma_shadowing(env: Vars, key: Seq<char>)
    ensures
        frame_has(env.local, key) ==> env.get(key) is Some && env.get(key) == frame_get(
            env.local,
            key,
        ),
        !frame_has(env.local, key) && env.get(key) is Some ==> exists|i: int|
            newest_with(env.parents, key, i) && env.get(key) == frame_get(env.parents[i], key),
        env.get(key) is None <==> !frame_has(env.local, key) && forall|i: int|
            0 <= i < env.parents.len() ==> !frame_has(#[trigger] env.parents[i], key),
{
    lemma_frame_get(env.local, key);
    lemma_parents_get(env.parents, key);
}

/// A run over characters that all satisfy `p`, up to one that does not or
/// to the end, has their number as its length.
pub proof fn lemma_run_exact(s: Seq<char>, from: int, to: int, p: spec_fn(char) -> bool)
    requires
        0 <= from <= to <= s.len(),
        forall|j: int| from <= j < to ==> p(#[trigger] s[j]),
        to == s.len() || !p(s[to]),
    ensures
        run_from(s, from, p) == to - from,
    decreases to - from,
{
    if from < to {
        assert(p(s[from]));
        lemma_run_exact(s, from + 1, to, p);
    }
}

/// The first `*/` after `from` is found where it is.
pub proof fn lemma_comment_close(s: Seq<char>, from: int, close: int)
    requires
        0 <= from <= close,
        close + 1 < s.len(),
        s[close] == '*',
        s[close + 1] == '/',
        forall|j: int| from <= j < close ==> !(#[trigger] s[j] == '*' && s[j + 1] == '/'),
    ensures
        comment_close(s, from) == Some(close),
    decreases close - from,
{
    if from < close {
        assert(!(s[from] == '*' && s[from + 1] == '/'));
        lemma_comment_close(s, from + 1, close);
    }
}

/// The pieces of an element and of those after it, in a row.
pub proof fn lemma_concat_first(first: Element, rest: Seq<Element>, env: Vars)
    ensures
        concat(seq![first] + rest, env) == (match piece(first, env) {
            Err(e) => Err::<Seq<char>, Failure>(e),
            Ok(p) => match concat(rest, env) {
                Err(e) => Err(e),
                Ok(t) => Ok(p + t),
            },
        }),
    decreases rest.len(),
{
    let all = seq![first] + rest;
    if rest.len() == 0 {
        assert(all.drop_last() =~= Seq::<Element>::empty());
        assert(all.last() == first);
        assert(rest =~= Seq::<Element>::empty());
        assert(concat(Seq::<Element>::empty(), env) == Ok::<Seq<char>, Failure>(Seq::empty()));
        assert(concat(all.drop_last(), env) == Ok::<Seq<char>, Failure>(Seq::empty()));
        assert(concat(rest, env) == Ok::<Seq<char>, Failure>(Seq::empty()));
        match piece(first, env) {
            Ok(p) => {
                assert(Seq::<char>::empty() + p =~= p + Seq::<char>::empty());
                assert(concat(all, env) == Ok::<Seq<char>, Failure>(Seq::<char>::empty() + p));
            },
            Err(_) => {},
        }
    } else {
        assert(all.drop_last() =~= seq![first] + rest.drop_last());
        assert(all.last() == rest.last());
        lemma_concat_first(first, rest.drop_last(), env);
        assert(concat(all, env) == (match concat(all.drop_last(), env) {
            Err(e) => Err::<Seq<char>, Failure>(e),
            Ok(head) => match piece(all.last(), env) {
                Err(e) => Err(e),
                Ok(p) => Ok(head + p),
            },
        }));
        assert(concat(rest, env) == (match concat(rest.drop_last(), env) {
            Err(e) => Err::<Seq<char>, Failure>(e),
            Ok(head) => match piece(rest.last(), env) {
                Err(e) => Err(e),
                Ok(p) => Ok(head + p),
            },
        }));
        match (piece(first, env), concat(rest.drop_last(), env), piece(rest.last(), env)) {
            (Ok(p), Ok(t), Ok(q)) => {
                assert((p + t) + q =~= p + (t + q));
            },
            _ => {},
        }
    }
}

/// Whether `s` holds the characters `a` and `b` side by side nowhere.
pub open spec fn free_of(s: Seq<char>, a: char, b: char) -> bool {
    forall|i: int| !pair_at(s, i, a, b)
}

/// In a string with no `{{` and no `/*`, every element from `at` on is a
/// literal, and together they spell the string from `at` on.
pub proof fn lemma_literals_only(s: Seq<char>, at: int, env: Vars)
    requires
        free_of(s, '{', '{'),
        free_of(s, '/', '*'),
        0 <= at <= s.len(),
    ensures
        concat(elements_from(s, at), env) == Ok::<Seq<char>, Failure>(
            s.subrange(at, s.len() as int),
        ),
        at < s.len() ==> elements_from(s, at).len() >= 1 && elements_from(s, at)[0] is Literal,
        elements_from(s, at).len() == 1 ==> elements_from(s, at)[0] == Element::Literal(
            s.subrange(at, s.len() as int),
        ),
    decreases s.len() - at,
{
    if at < s.len() {
        assert(!pair_at(s, at, '{', '{'));
        assert(!pair_at(s, at, '/', '*'));
        let rest = run_from(s, at + 1, plain_chars());
        crate::text::lemma_run_bound(s, at + 1, plain_chars());
        let next = at + 1 + rest;
        let first = Element::Literal(s.subrange(at, next));
        assert(element_at(s, at) == (first, next));
        lemma_literals_only(s, next, env);
        lemma_concat_first(first, elements_from(s, next), env);
        assert(s.subrange(at, next) + s.subrange(next, s.len() as int) =~= s.subrange(
            at,
            s.len() as int,
        ));
        if elements_from(s, at).len() == 1 {
            assert(elements_from(s, next).len() == 0);
            assert(next == s.len());
        }
    } else {
        assert(s.subrange(at, s.len() as int) =~= Seq::<char>::empty());
    }
}

/// Literals stand for themselves: a string that is not empty and holds no
/// `{{` and no `/*` expands to itself, as a JSON string.
pub proof fn lemma_literal_expansion(s: Seq<char>, env: Vars)
    requires
        s.len() > 0,
        free_of(s, '{', '{'),
        free_of(s, '/', '*'),
    ensures
        expand_text(s, env) == Ok::<Json, Failure>(Json::Str(s)),
{
    lemma_literals_only(s, 0, env);
    assert(s.subrange(0, s.len() as int) =~= s);
}

/// A bare token keeps the type: a string that is `{{`, a key of token
/// characters and `}}` expands to the value of the trimmed key, unchanged;
/// where no frame holds that key, the key is unknown.
pub proof fn lemma_bare_token(key: Seq<char>, env: Vars)
    requires
        key.len() > 0,
        forall|i: int| 0 <= i < key.len() ==> is_token_char(#[trigger] key[i]),
    ensures
        expand_text(seq!['{', '{'] + key + seq!['}', '}'], env) == (match env.get(trim(key)) {
            Some(v) => Ok::<Json, Failure>(v),
            None => Err(Failure::UnknownKey(trim(key))),
        }),
{
    let s = seq!['{', '{'] + key + seq!['}', '}'];
    let n = key.len() as int;
    assert(s.len() == n + 4);
    assert(s[0] == '{' && s[1] == '{');
    assert(s[n + 2] == '}' && s[n + 3] == '}');
    assert forall|j: int| 2 <= j < n + 2 implies token_chars()(#[trigger] s[j]) by {
        assert(s[j] == key[j - 2]);
    }
    assert(!token_chars()(s[n + 2]));
    lemma_run_exact(s, 2, n + 2, token_chars());
    assert(pair_at(s, 0, '{', '{'));
    assert(pair_at(s, 2 + n, '}', '}'));
    assert(s.subrange(2, 2 + n) =~= key);
    assert(element_at(s, 0) == (Element::Token(trim(key)), n + 4));
    assert(elements_from(s, n + 4) =~= Seq::<Element>::empty());
    assert(elements(s) =~= seq![Element::Token(trim(key))]);
}

/// A comment is an escape: a string that is `/*`, an interior without `*/`,
/// and `*/` expands to the interior as a JSON string, whatever the
/// environment binds.
pub proof fn lemma_comment_escape(interior: Seq<char>, env: Vars)
    requires
        free_of(interior, '*', '/'),
    ensures
        expand_text(seq!['/', '*'] + interior + seq!['*', '/'], env) == Ok::<Json, Failure>(
            Json::Str(interior),
        ),
{
    let s = seq!['/', '*'] + interior + seq!['*', '/'];
    let n = interior.len() as int;
    assert(s.len() == n + 4);
    assert(s[0] == '/' && s[1] == '*');
    assert(s[n + 2] == '*' && s[n + 3] == '/');
    assert forall|j: int| 2 <= j < n + 2 implies !(#[trigger] s[j] == '*' && s[j + 1] == '/') by {
        if j + 1 < n + 2 {
            assert(s[j] == interior[j - 2]);
            assert(s[j + 1] == interior[j - 1]);
            assert(!pair_at(interior, j - 2, '*', '/'));
        }
    }
    lemma_comment_close(s, 2, n + 2);
    assert(!pair_at(s, 0, '{', '{'));
    assert(pair_at(s, 0, '/', '*'));
    assert(s.subrange(2, n + 2) =~= interior);
    assert(element_at(s, 0) == (Element::Literal(interior), n + 4));
    assert(elements_from(s, n + 4) =~= Seq::<Element>::empty());
    assert(elements(s) =~= seq![Element::Literal(interior)]);
}

} // verus!
