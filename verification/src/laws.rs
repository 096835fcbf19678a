use vstd::prelude::*;

use crate::conclusion::ConclusionView;
use crate::resolver::{
    lookup_name, resolve_model, verb_dont, verb_emacs, verb_false, verb_ls, verb_sl, verb_true,
    verb_vim,
};

verus! {

/// No two verbs of the rule table are the same byte string.
proof fn lemma_verbs_distinct()
    ensures
        verb_true() != verb_false(),
        verb_true() != verb_dont(),
        verb_true() != verb_ls(),
        verb_true() != verb_sl(),
        verb_true() != verb_vim(),
        verb_true() != verb_emacs(),
        verb_false() != verb_dont(),
        verb_false() != verb_ls(),
        verb_false() != verb_sl(),
        verb_false() != verb_vim(),
        verb_false() != verb_emacs(),
        verb_dont() != verb_ls(),
        verb_dont() != verb_sl(),
        verb_dont() != verb_vim(),
        verb_dont() != verb_emacs(),
        verb_ls() != verb_sl(),
        verb_ls() != verb_vim(),
        verb_ls() != verb_emacs(),
        verb_sl() != verb_vim(),
        verb_sl() != verb_emacs(),
        verb_vim() != verb_emacs(),
{
    assert(verb_true()[0] != verb_dont()[0]);
    assert(verb_false()[0] != verb_emacs()[0]);
    assert(verb_ls()[0] != verb_sl()[0]);
}

/// The resolver is total: every token sequence and every capability
/// lookup yield a well-formed conclusion, in particular an `Exec` whose
/// command line is never empty.
pub proof fn lemma_resolver_total(tokens: Seq<Seq<u8>>, has: spec_fn(Seq<u8>) -> bool)
    ensures
        resolve_model(tokens, has).wf(),
{
}

/// The conclusion depends on the capability lookup only through the one
/// name `lookup_name` designates: two lookups that agree on that name
/// (or any two, when no name is designated) resolve every command line
/// identically. In particular the resolver never consults the lookup
/// for a substituted name's own substitution candidates.
pub proof fn lemma_lookup_consulted_once(
    tokens: Seq<Seq<u8>>,
    has1: spec_fn(Seq<u8>) -> bool,
    has2: spec_fn(Seq<u8>) -> bool,
)
    requires
        match lookup_name(tokens) {
            Some(name) => has1(name) == has2(name),
            None => true,
        },
    ensures
        resolve_model(tokens, has1) == resolve_model(tokens, has2),
{
}

/// A "true" verb concludes with exit status 1, whatever tokens follow
/// it and whatever the lookup answers.
pub proof fn lemma_true_ignores_rest(rest: Seq<Seq<u8>>, has: spec_fn(Seq<u8>) -> bool)
    ensures
        resolve_model(seq![verb_true()] + rest, has) == ConclusionView::Exit(1),
{
    assert((seq![verb_true()] + rest)[0] == verb_true());
}

/// A "false" verb concludes with exit status 0, whatever tokens follow
/// it and whatever the lookup answers.
pub proof fn lemma_false_ignores_rest(rest: Seq<Seq<u8>>, has: spec_fn(Seq<u8>) -> bool)
    ensures
        resolve_model(seq![verb_false()] + rest, has) == ConclusionView::Exit(0),
{
    lemma_verbs_distinct();
    assert((seq![verb_false()] + rest)[0] == verb_false());
}

/// A "dont" verb followed by anything strips exactly one "dont" layer:
/// the remaining tokens are executed unchanged, even when they begin
/// with "dont" again — the rule is not recursive within one resolution.
pub proof fn lemma_dont_strips_one_layer(rest: Seq<Seq<u8>>, has: spec_fn(Seq<u8>) -> bool)
    requires
        rest.len() > 0,
    ensures
        resolve_model(seq![verb_dont()] + rest, has) == ConclusionView::Exec(rest),
{
    lemma_verbs_distinct();
    let tokens = seq![verb_dont()] + rest;
    assert(tokens[0] == verb_dont());
    assert(tokens.skip(1) =~= rest);
}

/// An "ls" verb is swapped for "sl" exactly when "sl" is on the search
/// path, keeping the following tokens unchanged and in order; otherwise
/// it concludes with exit status 0.
pub proof fn lemma_ls_swap(rest: Seq<Seq<u8>>, has: spec_fn(Seq<u8>) -> bool)
    ensures
        resolve_model(seq![verb_ls()] + rest, has) == (if has(verb_sl()) {
            ConclusionView::Exec(seq![verb_sl()] + rest)
        } else {
            ConclusionView::Exit(0)
        }),
{
    lemma_verbs_distinct();
    let tokens = seq![verb_ls()] + rest;
    assert(tokens[0] == verb_ls());
    assert(tokens.skip(1) =~= rest);
}

/// An "sl" verb is swapped for "ls" unconditionally — under every
/// capability lookup — keeping the following tokens unchanged and in
/// order.
pub proof fn lemma_sl_swaps_unconditionally(rest: Seq<Seq<u8>>, has: spec_fn(Seq<u8>) -> bool)
    ensures
        resolve_model(seq![verb_sl()] + rest, has) == ConclusionView::Exec(seq![verb_ls()] + rest),
{
    lemma_verbs_distinct();
    let tokens = seq![verb_sl()] + rest;
    assert(tokens[0] == verb_sl());
    assert(tokens.skip(1) =~= rest);
}

/// A "vim" verb is swapped for "emacs" exactly when "emacs" is on the
/// search path, keeping the following tokens unchanged and in order;
/// otherwise it concludes with exit status 0.
pub proof fn lemma_vim_swap(rest: Seq<Seq<u8>>, has: spec_fn(Seq<u8>) -> bool)
    ensures
        resolve_model(seq![verb_vim()] + rest, has) == (if has(verb_emacs()) {
            ConclusionView::Exec(seq![verb_emacs()] + rest)
        } else {
            ConclusionView::Exit(0)
        }),
{
    lemma_verbs_distinct();
    let tokens = seq![verb_vim()] + rest;
    assert(tokens[0] == verb_vim());
    assert(tokens.skip(1) =~= rest);
}

/// An "emacs" verb is swapped for "vim" exactly when "vim" is on the
/// search path, keeping the following tokens unchanged and in order;
/// otherwise it concludes with exit status 0.
pub proof fn lemma_emacs_swap(rest: Seq<Seq<u8>>, has: spec_fn(Seq<u8>) -> bool)
    ensures
        resolve_model(seq![verb_emacs()] + rest, has) == (if has(verb_vim()) {
            ConclusionView::Exec(seq![verb_vim()] + rest)
        } else {
            ConclusionView::Exit(0)
        }),
{
    lemma_verbs_distinct();
    let tokens = seq![verb_emacs()] + rest;
    assert(tokens[0] == verb_emacs());
    assert(tokens.skip(1) =~= rest);
}

/// A verb no rule names concludes with exit status 0, for every token
/// sequence behind it and every capability lookup.
pub proof fn lemma_unknown_verb_is_noop(tokens: Seq<Seq<u8>>, has: spec_fn(Seq<u8>) -> bool)
    requires
        tokens.len() > 0,
        tokens[0] != verb_true(),
        tokens[0] != verb_false(),
        tokens[0] != verb_dont(),
        tokens[0] != verb_ls(),
        tokens[0] != verb_sl(),
        tokens[0] != verb_vim(),
        tokens[0] != verb_emacs(),
    ensures
        resolve_model(tokens, has) == ConclusionView::Exit(0),
{
}

} // verus!
