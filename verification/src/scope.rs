//! OAuth 2.0 scopes (RFC 6749, section 3.3): a scope is a set of scope
//! tokens, written as the tokens in text order separated by single spaces.
use vstd::prelude::*;
use crate::text::{
    compare_text, lemma_text_lt_asymmetric, lemma_text_lt_irreflexive, lemma_text_lt_total,
    lemma_text_lt_transitive, text_lt, TextOrder,
};

verus! {

/// `NQCHAR = %x21 / %x23-5B / %x5D-7E`
pub open spec fn is_nqchar(c: char) -> bool {
    ||| c as u32 == 0x21
    ||| (0x23 <= c as u32 && c as u32 <= 0x5b)
    ||| (0x5d <= c as u32 && c as u32 <= 0x7e)
}

/// `scope-token = 1*NQCHAR`
pub open spec fn is_scope_token(s: Seq<char>) -> bool {
    s.len() > 0 && forall|i: int| 0 <= i < s.len() ==> is_nqchar(#[trigger] s[i])
}

/// Every element sorts strictly before every later one.
pub open spec fn strictly_sorted(s: Seq<Seq<char>>) -> bool {
    forall|i: int, j: int| 0 <= i < j < s.len() ==> text_lt(#[trigger] s[i], #[trigger] s[j])
}

/// Every element is a scope token.
pub open spec fn all_scope_tokens(s: Seq<Seq<char>>) -> bool {
    forall|i: int| 0 <= i < s.len() ==> is_scope_token(#[trigger] s[i])
}

/// The words of `s`, joined by single spaces.
pub open spec fn join_words(s: Seq<Seq<char>>) -> Seq<char>
    decreases s.len(),
{
    if s.len() == 0 {
        seq![]
    } else if s.len() == 1 {
        s[0]
    } else {
        join_words(s.drop_last()) + seq![' '] + s.last()
    }
}

/// The pieces of `s` between single spaces, as `str::split(' ')` yields
/// them: one more piece than there are spaces, empty pieces included.
pub open spec fn split_words(s: Seq<char>) -> Seq<Seq<char>>
    decreases s.len(),
{
    if s.len() == 0 {
        seq![seq![]]
    } else {
        let p = split_words(s.drop_last());
        if s.last() == ' ' {
            p.push(seq![])
        } else {
            p.update(p.len() - 1, p.last().push(s.last()))
        }
    }
}

/// A string that is not a valid scope or scope token.
#[derive(Clone, Copy, Debug, PartialEq, Eq, Structural)]
pub struct InvalidScope;

/// A single scope token.
#[derive(Debug)]
pub struct ScopeToken {
    text: String,
}

impl View for ScopeToken {
    type V = Seq<char>;

    closed spec fn view(&self) -> Seq<char> {
        self.text@
    }
}

impl ScopeToken {
    #[verifier::type_invariant]
    closed spec fn inv(self) -> bool {
        is_scope_token(self.text@)
    }

    /// Parses a scope token; fails unless `s` is a non-empty string of
    /// `NQCHAR`s.
    pub fn parse(s: &str) -> (r: Result<ScopeToken, InvalidScope>)
        ensures
            r is Ok <==> is_scope_token(s@),
            r matches Ok(t) ==> t@ == s@,
    {
        let n = s.unicode_len();
        if n == 0 {
            return Err(InvalidScope);
        }
        let mut i: usize = 0;
        while i < n
            invariant
                n == s@.len(),
                i <= n,
                forall|k: int| 0 <= k < i ==> is_nqchar(#[trigger] s@[k]),
            decreases n - i,
        {
            let c = s.get_char(i);
            let u = c as u32;
            if !(u == 0x21 || (0x23 <= u && u <= 0x5b) || (0x5d <= u && u <= 0x7e)) {
                assert(!is_nqchar(s@[i as int]));
                return Err(InvalidScope);
            }
            i = i + 1;
        }
        Ok(ScopeToken { text: String::from_str(s) })
    }

    /// The token as text.
    pub fn as_str(&self) -> (r: &str)
        ensures
            r@ == self@,
    {
        self.text.as_str()
    }

    /// The `openid` scope token (OpenID Connect Core 1.0, section 3.1.2.1).
    pub fn openid() -> (t: ScopeToken)
        ensures
            t@ == "openid"@,
    {
        let s = "openid";
        proof {
            reveal_strlit("openid");
            assert(is_scope_token(s@));
        }
        match ScopeToken::parse(s) {
            Ok(t) => t,
            Err(_) => vstd::pervasive::unreached(),
        }
    }
}

/// A set of scope tokens, kept in text order.
#[derive(Debug)]
pub struct Scope {
    tokens: Vec<ScopeToken>,
}

impl View for Scope {
    type V = Seq<Seq<char>>;

    closed spec fn view(&self) -> Seq<Seq<char>> {
        self.tokens@.map_values(|t: ScopeToken| t@)
    }
}

/// Two strictly sorted sequences with the same elements are equal.
pub proof fn lemma_sorted_determined_by_set(a: Seq<Seq<char>>, b: Seq<Seq<char>>)
    requires
        strictly_sorted(a),
        strictly_sorted(b),
        a.to_set() == b.to_set(),
    ensures
        a == b,
    decreases a.len(),
{
    if a.len() == 0 {
        if b.len() > 0 {
            assert(b.to_set().contains(b[0]));
        }
        assert(a =~= b);
    } else {
        assert(a.to_set().contains(a[0]));
        assert(b.len() > 0) by {
            if b.len() == 0 {
                assert(b.to_set().contains(a[0]));
            }
        }
        assert(b.to_set().contains(b[0]));
        // the first elements are both the least element of the set
        assert(a[0] == b[0]) by {
            let ja = choose|j: int| 0 <= j < a.len() && a[j] == b[0];
            let jb = choose|j: int| 0 <= j < b.len() && b[j] == a[0];
            if a[0] != b[0] {
                assert(ja > 0);
                assert(jb > 0);
                assert(text_lt(a[0], a[ja]));
                assert(text_lt(b[0], b[jb]));
                lemma_text_lt_asymmetric(a[0], b[0]);
            }
        }
        let a1 = a.drop_first();
        let b1 = b.drop_first();
        assert(strictly_sorted(a1)) by {
            assert forall|i: int, j: int| 0 <= i < j < a1.len() implies text_lt(
                #[trigger] a1[i],
                #[trigger] a1[j],
            ) by {
                assert(a1[i] == a[i + 1] && a1[j] == a[j + 1]);
            }
        }
        assert(strictly_sorted(b1)) by {
            assert forall|i: int, j: int| 0 <= i < j < b1.len() implies text_lt(
                #[trigger] b1[i],
                #[trigger] b1[j],
            ) by {
                assert(b1[i] == b[i + 1] && b1[j] == b[j + 1]);
            }
        }
        assert(a1.to_set() =~= b1.to_set()) by {
            assert forall|x: Seq<char>| a1.to_set().contains(x) implies b1.to_set().contains(x) by {
                let i = choose|i: int| 0 <= i < a1.len() && a1[i] == x;
                assert(a[i + 1] == x);
                assert(text_lt(a[0], x));
                lemma_text_lt_irreflexive(x);
                assert(b.to_set().contains(x));
                let j = choose|j: int| 0 <= j < b.len() && b[j] == x;
                assert(j != 0);
                assert(b1[j - 1] == x);
            }
            assert forall|x: Seq<char>| b1.to_set().contains(x) implies a1.to_set().contains(x) by {
                let i = choose|i: int| 0 <= i < b1.len() && b1[i] == x;
                assert(b[i + 1] == x);
                assert(text_lt(b[0], x));
                lemma_text_lt_irreflexive(x);
                assert(a.to_set().contains(x));
                let j = choose|j: int| 0 <= j < a.len() && a[j] == x;
                assert(j != 0);
                assert(a1[j - 1] == x);
            }
        }
        lemma_sorted_determined_by_set(a1, b1);
        assert(a =~= b) by {
            assert forall|i: int| 0 <= i < a.len() implies a[i] == b[i] by {
                if i > 0 {
                    assert(a[i] == a1[i - 1]);
                    assert(b[i] == b1[i - 1]);
                }
            }
        }
    }
}

impl Scope {
    #[verifier::type_invariant]
    closed spec fn inv(self) -> bool {
        &&& strictly_sorted(self@)
        &&& all_scope_tokens(self@)
    }

    /// The scope's tokens are in strict text order and each is a scope
    /// token.
    pub fn is_well_formed(&self) -> (r: bool)
        ensures
            r,
            strictly_sorted(self@),
            all_scope_tokens(self@),
    {
        proof {
            use_type_invariant(self);
        }
        true
    }

    /// The empty scope.
    pub fn new() -> (s: Scope)
        ensures
            s@ == Seq::<Seq<char>>::empty(),
    {
        let s = Scope { tokens: Vec::new() };
        assert(s@ =~= Seq::<Seq<char>>::empty());
        s
    }

    /// The number of tokens.
    pub fn len(&self) -> (n: usize)
        ensures
            n == self@.len(),
    {
        self.tokens.len()
    }

    /// The token at position `i` in text order.
    pub fn token(&self, i: usize) -> (t: &str)
        requires
            i < self@.len(),
        ensures
            t@ == self@[i as int],
    {
        self.tokens[i].as_str()
    }

    /// Adds `token` to the scope.
    pub fn insert(&mut self, token: ScopeToken)
        ensures
            final(self)@.to_set() == old(self)@.to_set().insert(token@),
    {
        proof {
            use_type_invariant(&*self);
            use_type_invariant(&token);
        }
        let ghost old_view = self@;
        let mut tokens = Vec::new();
        std::mem::swap(&mut tokens, &mut self.tokens);
        assert(tokens@.map_values(|t: ScopeToken| t@) == old_view);
        let n = tokens.len();
        let mut j: usize = 0;
        while j < n
            invariant_except_break
                j <= n,
                forall|k: int| 0 <= k < j ==> text_lt(#[trigger] old_view[k], token@),
            invariant
                n == tokens@.len(),
                n == old_view.len(),
                old_view == old(self)@,
                tokens@.map_values(|t: ScopeToken| t@) == old_view,
                strictly_sorted(old_view),
                all_scope_tokens(old_view),
                is_scope_token(token@),
            ensures
                j <= n,
                forall|k: int| 0 <= k < j ==> text_lt(#[trigger] old_view[k], token@),
                j < n ==> text_lt(token@, old_view[j as int]),
            decreases n - j,
        {
            match compare_text(tokens[j].as_str(), token.as_str()) {
                TextOrder::Less => {
                    j = j + 1;
                },
                TextOrder::Same => {
                    self.tokens = tokens;
                    assert(old_view.to_set().insert(token@) =~= old_view.to_set()) by {
                        assert(old_view[j as int] == token@);
                    }
                    return ;
                },
                TextOrder::Greater => {
                    break ;
                },
            }
        }
        // every later token sorts after the new one
        assert forall|k: int| j <= k < n implies text_lt(token@, #[trigger] old_view[k]) by {
            if j < n {
                assert(text_lt(token@, old_view[j as int]));
                if k > j {
                    lemma_text_lt_transitive(token@, old_view[j as int], old_view[k]);
                }
            }
        }
        tokens.insert(j, token);
        let ghost nv = old_view.insert(j as int, token@);
        assert(tokens@.map_values(|t: ScopeToken| t@) =~= nv);
        assert(strictly_sorted(nv)) by {
            assert forall|a: int, b: int| 0 <= a < b < nv.len() implies text_lt(
                #[trigger] nv[a],
                #[trigger] nv[b],
            ) by {
                if b < j {
                } else if b == j {
                } else if a < j {
                    assert(nv[b] == old_view[b - 1]);
                    lemma_text_lt_transitive(old_view[a], token@, old_view[b - 1]);
                } else if a == j {
                    assert(nv[b] == old_view[b - 1]);
                } else {
                    assert(nv[a] == old_view[a - 1]);
                    assert(nv[b] == old_view[b - 1]);
                }
            }
        }
        assert(all_scope_tokens(nv)) by {
            assert forall|a: int| 0 <= a < nv.len() implies is_scope_token(#[trigger] nv[a]) by {
                if a < j {
                } else if a > j {
                    assert(nv[a] == old_view[a - 1]);
                }
            }
        }
        assert(nv.to_set() =~= old_view.to_set().insert(token@)) by {
            assert forall|x: Seq<char>| nv.to_set().contains(x) implies old_view.to_set().insert(
                token@,
            ).contains(x) by {
                let i = choose|i: int| 0 <= i < nv.len() && nv[i] == x;
                if i < j {
                    assert(old_view[i] == x);
                } else if i > j {
                    assert(old_view[i - 1] == x);
                }
            }
            assert forall|x: Seq<char>| old_view.to_set().insert(token@).contains(x) implies nv.to_set().contains(x) by {
                if x == token@ {
                    assert(nv[j as int] == x);
                } else {
                    let i = choose|i: int| 0 <= i < old_view.len() && old_view[i] == x;
                    if i < j {
                        assert(nv[i] == x);
                    } else {
                        assert(nv[i + 1] == x);
                    }
                }
            }
        }
        self.tokens = tokens;
    }

    /// Whether `token` belongs to the scope.
    pub fn contains(&self, token: &str) -> (r: bool)
        ensures
            r == self@.contains(token@),
    {
        let n = self.tokens.len();
        let mut i: usize = 0;
        while i < n
            invariant
                n == self@.len(),
                i <= n,
                forall|k: int| 0 <= k < i ==> #[trigger] self@[k] != token@,
            decreases n - i,
        {
            if let TextOrder::Same = compare_text(self.tokens[i].as_str(), token) {
                assert(self@[i as int] == token@);
                return true;
            }
            i = i + 1;
        }
        false
    }

    /// The scope made of `tokens` (duplicates collapse).
    pub fn from_tokens(tokens: Vec<ScopeToken>) -> (s: Scope)
        ensures
            s@.to_set() == tokens@.map_values(|t: ScopeToken| t@).to_set(),
    {
        let mut s = Scope::new();
        let ghost input = tokens@.map_values(|t: ScopeToken| t@);
        let mut rest = tokens;
        assert(s@.to_set() =~= input.skip(input.len() as int).to_set());
        // consume the tokens back to front
        while rest.len() > 0
            invariant
                rest@.len() <= input.len(),
                forall|k: int| 0 <= k < rest@.len() ==> #[trigger] rest@[k]@ == input[k],
                s@.to_set() == input.skip(rest@.len() as int).to_set(),
            decreases rest@.len(),
        {
            let ghost m = rest@.len() as int;
            let t = rest.pop().unwrap();
            assert(t@ == input[m - 1]);
            s.insert(t);
            assert(input.skip(m - 1).to_set() =~= input.skip(m).to_set().insert(input[m - 1])) by {
                let a = input.skip(m - 1);
                let b = input.skip(m);
                assert forall|x: Seq<char>| a.to_set().contains(x) implies b.to_set().insert(
                    input[m - 1],
                ).contains(x) by {
                    let i = choose|i: int| 0 <= i < a.len() && a[i] == x;
                    if i > 0 {
                        assert(b[i - 1] == x);
                    }
                }
                assert forall|x: Seq<char>| b.to_set().insert(input[m - 1]).contains(x) implies a.to_set().contains(x) by {
                    if x == input[m - 1] {
                        assert(a[0] == x);
                    } else {
                        let i = choose|i: int| 0 <= i < b.len() && b[i] == x;
                        assert(a[i + 1] == x);
                    }
                }
            }
        }
        assert(input.skip(0) =~= input);
        s
    }

    /// The scope written as its tokens in text order, separated by single
    /// spaces.
    pub fn to_string(&self) -> (r: String)
        ensures
            r@ == join_words(self@),
    {
        let mut r = String::new();
        let n = self.tokens.len();
        let sp = " ";
        proof {
            reveal_strlit(" ");
        }
        let mut i: usize = 0;
        assert(self@.take(0) =~= Seq::<Seq<char>>::empty());
        while i < n
            invariant
                n == self@.len(),
                i <= n,
                sp@ == seq![' '],
                r@ == join_words(self@.take(i as int)),
            decreases n - i,
        {
            assert(self@.take(i as int + 1).drop_last() =~= self@.take(i as int));
            if i > 0 {
                r.append(sp);
            } else {
                assert(self@.take(1) =~= seq![self@[0]]);
            }
            r.append(self.tokens[i].as_str());
            i = i + 1;
        }
        assert(self@.take(n as int) =~= self@);
        r
    }
}


impl Scope {
    /// Parses a scope: the pieces of `s` between single spaces must each be
    /// a scope token; the scope is the set of those pieces.
    pub fn parse(s: &str) -> (r: Result<Scope, InvalidScope>)
        ensures
            r is Ok <==> all_scope_tokens(split_words(s@)),
            r matches Ok(sc) ==> sc@.to_set() == split_words(s@).to_set(),
    {
        let n = s.unicode_len();
        let mut scope = Scope::new();
        let mut ok = true;
        let mut start: usize = 0;
        let mut i: usize = 0;
        let ghost mut done: Seq<Seq<char>> = seq![];
        assert(s@.take(0) =~= Seq::<char>::empty());
        assert(s@.subrange(0, 0) =~= Seq::<char>::empty());
        assert(split_words(s@.take(0)) =~= done.push(s@.subrange(0, 0)));
        assert(scope@.to_set() =~= done.to_set());
        while i < n
            invariant
                n == s@.len(),
                start <= i <= n,
                split_words(s@.take(i as int)) == done.push(s@.subrange(start as int, i as int)),
                ok == all_scope_tokens(done),
                ok ==> scope@.to_set() == done.to_set(),
            decreases n - i,
        {
            let c = s.get_char(i);
            proof {
                assert(s@.take(i + 1).drop_last() =~= s@.take(i as int));
                assert(s@.take(i + 1).last() == c);
            }
            if c == ' ' {
                let piece = s.substring_char(start, i);
                let ghost before = done;
                proof {
                    let t1 = s@.take(i + 1);
                    assert(t1.len() > 0);
                    assert(t1.last() == ' ');
                    assert(split_words(t1) == split_words(t1.drop_last()).push(seq![]));
                    assert(s@.subrange(i + 1, i + 1) =~= Seq::<char>::empty());
                    done = done.push(piece@);
                    assert(split_words(s@.take(i + 1)) =~= done.push(s@.subrange(i + 1, i + 1)));
                }
                match ScopeToken::parse(piece) {
                    Ok(t) => {
                        if ok {
                            scope.insert(t);
                            proof {
                                vstd::seq::Seq::lemma_to_set_insert_commutes(before, piece@);
                                assert(before + seq![piece@] =~= done);
                            }
                        }
                    },
                    Err(_) => {
                        ok = false;
                    },
                }
                proof {
                    if all_scope_tokens(done) {
                        assert(all_scope_tokens(before)) by {
                            assert forall|k: int| 0 <= k < before.len() implies is_scope_token(
                                #[trigger] before[k],
                            ) by {
                                assert(done[k] == before[k]);
                            }
                        }
                        assert(is_scope_token(done[before.len() as int]));
                    }
                }
                start = i + 1;
            } else {
                proof {
                    let t1 = s@.take(i + 1);
                    let p = done.push(s@.subrange(start as int, i as int));
                    assert(t1.last() != ' ');
                    assert(split_words(t1) == p.update(p.len() - 1, p.last().push(c)));
                    assert(s@.subrange(start as int, i as int).push(c) =~= s@.subrange(start as int, i + 1));
                    assert(p.update(p.len() - 1, p.last().push(c)) =~= done.push(
                        s@.subrange(start as int, i + 1),
                    ));
                }
            }
            i = i + 1;
        }
        let piece = s.substring_char(start, n);
        assert(s@.take(n as int) =~= s@);
        let ghost all = done.push(piece@);
        let ghost was_ok = ok;
        match ScopeToken::parse(piece) {
            Ok(t) => {
                if ok {
                    scope.insert(t);
                    proof {
                        vstd::seq::Seq::lemma_to_set_insert_commutes(done, piece@);
                        assert(done + seq![piece@] =~= all);
                        assert(all_scope_tokens(all)) by {
                            assert forall|k: int| 0 <= k < all.len() implies is_scope_token(
                                #[trigger] all[k],
                            ) by {
                                if k < done.len() {
                                    assert(all[k] == done[k]);
                                }
                            }
                        }
                    }
                    return Ok(scope);
                }
            },
            Err(_) => {
                assert(!is_scope_token(all[done.len() as int]));
                return Err(InvalidScope);
            },
        }
        proof {
            assert(!all_scope_tokens(all)) by {
                if all_scope_tokens(all) {
                    assert forall|k: int| 0 <= k < done.len() implies is_scope_token(
                        #[trigger] done[k],
                    ) by {
                        assert(all[k] == done[k]);
                    }
                }
            }
        }
        Err(InvalidScope)
    }
}

/// `w` holds no space.
pub open spec fn spaceless(w: Seq<char>) -> bool {
    forall|i: int| 0 <= i < w.len() ==> #[trigger] w[i] != ' '
}

proof fn lemma_split_spaceless(w: Seq<char>)
    requires
        spaceless(w),
    ensures
        split_words(w) == seq![w],
    decreases w.len(),
{
    if w.len() == 0 {
        assert(w =~= Seq::<char>::empty());
    } else {
        let d = w.drop_last();
        assert(spaceless(d)) by {
            assert forall|i: int| 0 <= i < d.len() implies #[trigger] d[i] != ' ' by {
                assert(d[i] == w[i]);
            }
        }
        lemma_split_spaceless(d);
        assert(w.last() == w[w.len() - 1]);
        assert(d.push(w.last()) =~= w);
        assert(seq![d].update(0, d.push(w.last())) =~= seq![w]);
    }
}

proof fn lemma_split_after_space(a: Seq<char>, w: Seq<char>)
    requires
        spaceless(w),
    ensures
        split_words(a + seq![' '] + w) == split_words(a).push(w),
    decreases w.len(),
{
    let t = a + seq![' '] + w;
    if w.len() == 0 {
        assert(t =~= a.push(' '));
        assert(t.drop_last() =~= a);
        assert(w =~= Seq::<char>::empty());
    } else {
        let d = w.drop_last();
        assert(spaceless(d)) by {
            assert forall|i: int| 0 <= i < d.len() implies #[trigger] d[i] != ' ' by {
                assert(d[i] == w[i]);
            }
        }
        lemma_split_after_space(a, d);
        assert(t.drop_last() =~= a + seq![' '] + d);
        assert(t.last() == w[w.len() - 1]);
        let p = split_words(a).push(d);
        assert(p.update(p.len() - 1, p.last().push(t.last())) =~= split_words(a).push(w)) by {
            assert(d.push(w[w.len() - 1]) =~= w);
        }
    }
}

proof fn lemma_scope_token_spaceless(w: Seq<char>)
    requires
        is_scope_token(w),
    ensures
        spaceless(w),
{
    assert forall|i: int| 0 <= i < w.len() implies #[trigger] w[i] != ' ' by {
        assert(is_nqchar(w[i]));
    }
}

proof fn lemma_split_join(s: Seq<Seq<char>>)
    requires
        s.len() > 0,
        all_scope_tokens(s),
    ensures
        split_words(join_words(s)) == s,
    decreases s.len(),
{
    lemma_scope_token_spaceless(s.last());
    if s.len() == 1 {
        lemma_split_spaceless(s[0]);
        assert(seq![s[0]] =~= s);
    } else {
        let d = s.drop_last();
        assert(all_scope_tokens(d)) by {
            assert forall|i: int| 0 <= i < d.len() implies is_scope_token(#[trigger] d[i]) by {
                assert(d[i] == s[i]);
            }
        }
        lemma_split_join(d);
        lemma_split_after_space(join_words(d), s.last());
        assert(d.push(s.last()) =~= s);
    }
}

/// Writing a non-empty scope out and parsing the text back gives the same
/// scope: every piece of the text is a scope token, and a scope with the
/// pieces as its tokens is the scope written out.
pub proof fn law_scope_text_round_trip(s: Seq<Seq<char>>, parsed: Seq<Seq<char>>)
    requires
        s.len() > 0,
        strictly_sorted(s),
        all_scope_tokens(s),
        strictly_sorted(parsed),
        parsed.to_set() == split_words(join_words(s)).to_set(),
    ensures
        all_scope_tokens(split_words(join_words(s))),
        parsed == s,
{
    lemma_split_join(s);
    lemma_sorted_determined_by_set(parsed, s);
}

/// A scope is a set: two scopes with the same tokens are the same scope,
/// token for token in the same order (and so have the same text).
pub proof fn law_scope_is_a_set(a: Seq<Seq<char>>, b: Seq<Seq<char>>)
    requires
        strictly_sorted(a),
        strictly_sorted(b),
        a.to_set() == b.to_set(),
    ensures
        a == b,
        join_words(a) == join_words(b),
{
    lemma_sorted_determined_by_set(a, b);
}

} // verus!
