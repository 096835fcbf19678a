use vstd::prelude::*;

use crate::conclusion::{Conclusion, ConclusionView, tokens_view};

verus! {

// The verbs the rule table knows, as byte strings.

/// The bytes of "true".
pub open spec fn verb_true() -> Seq<u8> {
    seq![116u8, 114u8, 117u8, 101u8]
}

/// The bytes of "false".
pub open spec fn verb_false() -> Seq<u8> {
    seq![102u8, 97u8, 108u8, 115u8, 101u8]
}

/// The bytes of "dont".
pub open spec fn verb_dont() -> Seq<u8> {
    seq![100u8, 111u8, 110u8, 116u8]
}

/// The bytes of "ls".
pub open spec fn verb_ls() -> Seq<u8> {
    seq![108u8, 115u8]
}

/// The bytes of "sl".
pub open spec fn verb_sl() -> Seq<u8> {
    seq![115u8, 108u8]
}

/// The bytes of "vim".
pub open spec fn verb_vim() -> Seq<u8> {
    seq![118u8, 105u8, 109u8]
}

/// The bytes of "emacs".
pub open spec fn verb_emacs() -> Seq<u8> {
    seq![101u8, 109u8, 97u8, 99u8, 115u8]
}

/// The decision procedure, evaluated top to bottom; the first matching
/// rule wins. `has` answers whether an executable of a given name is
/// resolvable on the search path.
pub open spec fn resolve_model(tokens: Seq<Seq<u8>>, has: spec_fn(Seq<u8>) -> bool) -> ConclusionView {
    if tokens.len() == 0 {
        ConclusionView::Exit(0)
    } else if tokens[0] == verb_true() {
        ConclusionView::Exit(1)
    } else if tokens[0] == verb_false() {
        ConclusionView::Exit(0)
    } else if tokens[0] == verb_dont() {
        if tokens.len() == 1 {
            ConclusionView::Exit(0)
        } else {
            ConclusionView::Exec(tokens.skip(1))
        }
    } else if tokens[0] == verb_ls() && has(verb_sl()) {
        ConclusionView::Exec(seq![verb_sl()] + tokens.skip(1))
    } else if tokens[0] == verb_sl() {
        ConclusionView::Exec(seq![verb_ls()] + tokens.skip(1))
    } else if tokens[0] == verb_vim() && has(verb_emacs()) {
        ConclusionView::Exec(seq![verb_emacs()] + tokens.skip(1))
    } else if tokens[0] == verb_emacs() && has(verb_vim()) {
        ConclusionView::Exec(seq![verb_vim()] + tokens.skip(1))
    } else {
        ConclusionView::Exit(0)
    }
}

/// The one name, if any, whose presence on the search path the decision
/// for this command line depends on. The capability lookup is consulted
/// for that name alone, never for the substituted name's own candidates.
pub open spec fn lookup_name(tokens: Seq<Seq<u8>>) -> Option<Seq<u8>> {
    if tokens.len() == 0 {
        None
    } else if tokens[0] == verb_true() || tokens[0] == verb_false() || tokens[0] == verb_dont() {
        None
    } else if tokens[0] == verb_ls() {
        Some(verb_sl())
    } else if tokens[0] == verb_sl() {
        None
    } else if tokens[0] == verb_vim() {
        Some(verb_emacs())
    } else if tokens[0] == verb_emacs() {
        Some(verb_vim())
    } else {
        None
    }
}

/// Whether `found` is a correct answer, under the predicate `has`, to
/// the one lookup this command line requests; always true when it
/// requests none.
pub open spec fn consistent_answer(
    tokens: Seq<Seq<u8>>,
    has: spec_fn(Seq<u8>) -> bool,
    found: bool,
) -> bool {
    match lookup_name(tokens) {
        Some(name) => has(name) == found,
        None => true,
    }
}

/// The capability the resolver consumes: whether an executable of a
/// given name is resolvable on the current search path. `has_spec` is
/// the predicate that `has_command` answers; keeping it abstract lets a
/// caller supply any lookup, deterministic or live.
pub trait Controller {
    spec fn has_spec(&self, name: Seq<u8>) -> bool;

    fn has_command(&self, name: &Vec<u8>) -> (r: bool)
        ensures
            r == self.has_spec(name@),
    ;
}

/// A controller that answers from a fixed table holding the three names
/// the rule set ever asks about; every other name is absent.
pub struct TableController {
    pub sl: bool,
    pub emacs: bool,
    pub vim: bool,
}

impl Controller for TableController {
    open spec fn has_spec(&self, name: Seq<u8>) -> bool {
        if name == verb_sl() {
            self.sl
        } else if name == verb_emacs() {
            self.emacs
        } else if name == verb_vim() {
            self.vim
        } else {
            false
        }
    }

    fn has_command(&self, name: &Vec<u8>) -> (r: bool) {
        if bytes_eq(name, &sl_token()) {
            self.sl
        } else if bytes_eq(name, &emacs_token()) {
            self.emacs
        } else if bytes_eq(name, &vim_token()) {
            self.vim
        } else {
            false
        }
    }
}

/// The rule engine: decides, from the token sequence and the capability
/// lookup, the conclusion for this command line. The lookup is consulted
/// at most once per resolution, and only for the name the verb under
/// consideration depends on.
pub fn resolve<C: Controller>(ctl: &C, tokens: &Vec<Vec<u8>>) -> (r: Conclusion)
    ensures
        r@ == resolve_model(tokens_view(*tokens), (|name: Seq<u8>| ctl.has_spec(name))),
        r@.wf(),
{
    let request = lookup_request(tokens);
    let found = match request {
        Some(name) => ctl.has_command(&name),
        None => false,
    };
    let r = resolve_with(tokens, found);
    proof {
        let has = (|name: Seq<u8>| ctl.has_spec(name));
        assert(consistent_answer(tokens_view(*tokens), has, found));
    }
    r
}

/// The one name whose presence on the search path this command line's
/// conclusion depends on, or `None` when the conclusion is the same
/// under every lookup.
pub fn lookup_request(tokens: &Vec<Vec<u8>>) -> (r: Option<Vec<u8>>)
    ensures
        match r {
            Some(name) => lookup_name(tokens_view(*tokens)) == Some(name@),
            None => lookup_name(tokens_view(*tokens)) is None,
        },
{
    let ghost td = tokens_view(*tokens);
    if tokens.len() == 0 {
        return None;
    }
    proof {
        assert(td[0] == tokens@[0]@);
    }
    let verb = &tokens[0];
    if bytes_eq(verb, &true_token()) || bytes_eq(verb, &false_token()) || bytes_eq(
        verb,
        &dont_token(),
    ) {
        return None;
    }
    if bytes_eq(verb, &ls_token()) {
        return Some(sl_token());
    }
    if bytes_eq(verb, &sl_token()) {
        return None;
    }
    if bytes_eq(verb, &vim_token()) {
        return Some(emacs_token());
    }
    if bytes_eq(verb, &emacs_token()) {
        return Some(vim_token());
    }
    None
}

/// The rule engine with the one capability answer already in hand:
/// `found` must answer the name `lookup_request` gives (it is ignored
/// when that is `None`). The conclusion is the one the decision
/// procedure reaches under every lookup consistent with that answer.
pub fn resolve_with(tokens: &Vec<Vec<u8>>, found: bool) -> (r: Conclusion)
    ensures
        forall|has: spec_fn(Seq<u8>) -> bool|
            consistent_answer(tokens_view(*tokens), has, found) ==> r@ == #[trigger] resolve_model(
                tokens_view(*tokens),
                has,
            ),
        r@.wf(),
{
    let ghost td = tokens_view(*tokens);
    if tokens.len() == 0 {
        return Conclusion::Exit(0);
    }
    proof {
        assert(td[0] == tokens@[0]@);
    }
    let verb = &tokens[0];
    if bytes_eq(verb, &true_token()) {
        return Conclusion::Exit(1);
    }
    if bytes_eq(verb, &false_token()) {
        return Conclusion::Exit(0);
    }
    if bytes_eq(verb, &dont_token()) {
        if tokens.len() == 1 {
            return Conclusion::Exit(0);
        }
        return Conclusion::Exec(strip_first(tokens));
    }
    if bytes_eq(verb, &ls_token()) {
        if found {
            return Conclusion::Exec(swap_head(sl_token(), tokens));
        }
        return Conclusion::Exit(0);
    }
    if bytes_eq(verb, &sl_token()) {
        return Conclusion::Exec(swap_head(ls_token(), tokens));
    }
    if bytes_eq(verb, &vim_token()) {
        if found {
            return Conclusion::Exec(swap_head(emacs_token(), tokens));
        }
        return Conclusion::Exit(0);
    }
    if bytes_eq(verb, &emacs_token()) {
        if found {
            return Conclusion::Exec(swap_head(vim_token(), tokens));
        }
        return Conclusion::Exit(0);
    }
    Conclusion::Exit(0)
}

/// Clone of the token sequence with its first token removed.
fn strip_first(tokens: &Vec<Vec<u8>>) -> (r: Vec<Vec<u8>>)
    requires
        tokens.len() >= 1,
    ensures
        tokens_view(r) == tokens_view(*tokens).skip(1),
{
    let mut r: Vec<Vec<u8>> = Vec::new();
    let mut i: usize = 1;
    while i < tokens.len()
        invariant
            1 <= i <= tokens@.len(),
            r@.len() == i - 1,
            forall|j: int| 0 <= j < i - 1 ==> r@[j]@ == tokens@[j + 1]@,
        decreases tokens@.len() - i,
    {
        let t = tokens[i].clone();
        proof {
            assert(t@ =~= tokens@[i as int]@);
        }
        r.push(t);
        i += 1;
    }
    proof {
        assert(tokens_view(r) =~= tokens_view(*tokens).skip(1));
    }
    r
}

/// The command line that swaps the verb for `head`, keeping every
/// following token unchanged and in order.
fn swap_head(head: Vec<u8>, tokens: &Vec<Vec<u8>>) -> (r: Vec<Vec<u8>>)
    requires
        tokens.len() >= 1,
    ensures
        tokens_view(r) == seq![head@] + tokens_view(*tokens).skip(1),
{
    let ghost h = head@;
    let mut r: Vec<Vec<u8>> = Vec::new();
    r.push(head);
    let mut i: usize = 1;
    while i < tokens.len()
        invariant
            1 <= i <= tokens@.len(),
            r@.len() == i,
            r@[0]@ == h,
            forall|j: int| 1 <= j < i ==> r@[j]@ == tokens@[j]@,
        decreases tokens@.len() - i,
    {
        let t = tokens[i].clone();
        proof {
            assert(t@ =~= tokens@[i as int]@);
        }
        r.push(t);
        i += 1;
    }
    proof {
        assert(tokens_view(r) =~= seq![h] + tokens_view(*tokens).skip(1));
    }
    r
}

/// Byte-exact comparison of two tokens.
fn bytes_eq(a: &Vec<u8>, b: &Vec<u8>) -> (r: bool)
    ensures
        r == (a@ == b@),
{
    if a.len() != b.len() {
        return false;
    }
    let mut i: usize = 0;
    while i < a.len()
        invariant
            i <= a.len(),
            a@.len() == b@.len(),
            forall|j: int| 0 <= j < i ==> a@[j] == b@[j],
        decreases a.len() - i,
    {
        if a[i] != b[i] {
            return false;
        }
        i += 1;
    }
    proof {
        assert(a@ =~= b@);
    }
    true
}

/// The token "true".
fn true_token() -> (r: Vec<u8>)
    ensures
        r@ == verb_true(),
{
    let mut v: Vec<u8> = Vec::new();
    v.push(116u8);
    v.push(114u8);
    v.push(117u8);
    v.push(101u8);
    proof {
        assert(v@ =~= verb_true());
    }
    v
}

/// The token "false".
fn false_token() -> (r: Vec<u8>)
    ensures
        r@ == verb_false(),
{
    let mut v: Vec<u8> = Vec::new();
    v.push(102u8);
    v.push(97u8);
    v.push(108u8);
    v.push(115u8);
    v.push(101u8);
    proof {
        assert(v@ =~= verb_false());
    }
    v
}

/// The token "dont".
fn dont_token() -> (r: Vec<u8>)
    ensures
        r@ == verb_dont(),
{
    let mut v: Vec<u8> = Vec::new();
    v.push(100u8);
    v.push(111u8);
    v.push(110u8);
    v.push(116u8);
    proof {
        assert(v@ =~= verb_dont());
    }
    v
}

/// The token "ls".
fn ls_token() -> (r: Vec<u8>)
    ensures
        r@ == verb_ls(),
{
    let mut v: Vec<u8> = Vec::new();
    v.push(108u8);
    v.push(115u8);
    proof {
        assert(v@ =~= verb_ls());
    }
    v
}

/// The token "sl".
fn sl_token() -> (r: Vec<u8>)
    ensures
        r@ == verb_sl(),
{
    let mut v: Vec<u8> = Vec::new();
    v.push(115u8);
    v.push(108u8);
    proof {
        assert(v@ =~= verb_sl());
    }
    v
}

/// The token "vim".
fn vim_token() -> (r: Vec<u8>)
    ensures
        r@ == verb_vim(),
{
    let mut v: Vec<u8> = Vec::new();
    v.push(118u8);
    v.push(105u8);
    v.push(109u8);
    proof {
        assert(v@ =~= verb_vim());
    }
    v
}

/// The token "emacs".
fn emacs_token() -> (r: Vec<u8>)
    ensures
        r@ == verb_emacs(),
{
    let mut v: Vec<u8> = Vec::new();
    v.push(101u8);
    v.push(109u8);
    v.push(97u8);
    v.push(99u8);
    v.push(115u8);
    proof {
        assert(v@ =~= verb_emacs());
    }
    v
}

} // verus!
