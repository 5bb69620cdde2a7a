//! The argument list a command invocation receives, and the operations that
//! bind positional and named arguments.
//!
//! Every operation removes what it takes, so one argument feeds at most one
//! option. Coercions route through the rules in [`crate::value`].

use vstd::prelude::*;
use vstd::string::StrSliceExecFns;
use crate::font::{FamilyModel, FontFamily};
use crate::geom::Linear;
use crate::state::fam_seq;
use crate::value::{
    cast_font_family, cast_linear, color_of, family_of, linear_of, str_of, Value,
};

verus! {

/// One bound argument: its source span, its name if it was named, and its
/// value.
#[derive(Debug)]
pub struct Arg {
    pub span: u64,
    pub name: Option<String>,
    pub value: Value,
}

/// Whether an argument carries the name `key`.
pub open spec fn named_is(a: Arg, key: Seq<char>) -> bool {
    match a.name {
        Some(n) => n@ == key,
        None => false,
    }
}

/// Whether an argument is positional.
pub open spec fn positional(a: Arg) -> bool {
    a.name is None
}

/// The first argument named `key`, and the list once it is taken.
pub open spec fn take_named(items: Seq<Arg>, key: Seq<char>) -> (Option<Arg>, Seq<Arg>)
    decreases items.len(),
{
    if items.len() == 0 {
        (None::<Arg>, items)
    } else if named_is(items[0], key) {
        (Some(items[0]), items.drop_first())
    } else {
        let r = take_named(items.drop_first(), key);
        (r.0, seq![items[0]] + r.1)
    }
}

/// The first positional argument whose value satisfies `ok`, and the list
/// once it is taken.
pub open spec fn take_first(items: Seq<Arg>, ok: spec_fn(Value) -> bool) -> (
    Option<Arg>,
    Seq<Arg>,
)
    decreases items.len(),
{
    if items.len() == 0 {
        (None::<Arg>, items)
    } else if positional(items[0]) && ok(items[0].value) {
        (Some(items[0]), items.drop_first())
    } else {
        let r = take_first(items.drop_first(), ok);
        (r.0, seq![items[0]] + r.1)
    }
}

/// The first positional linear-length argument, and the list without it.
pub open spec fn take_linear(items: Seq<Arg>) -> (Option<Arg>, Seq<Arg>) {
    take_first(items, |v: Value| linear_of(v) is Some)
}

/// The first positional color argument, and the list without it.
pub open spec fn take_color(items: Seq<Arg>) -> (Option<Arg>, Seq<Arg>) {
    take_first(items, |v: Value| color_of(v) is Some)
}

/// The first positional string argument, and the list without it.
pub open spec fn take_str(items: Seq<Arg>) -> (Option<Arg>, Seq<Arg>) {
    take_first(items, |v: Value| str_of(v) is Some)
}

/// The positional family-coercible arguments, coerced and in order, and the
/// list once all of them are taken.
pub open spec fn take_all_families(items: Seq<Arg>) -> (Seq<FamilyModel>, Seq<Arg>)
    decreases items.len(),
{
    if items.len() == 0 {
        (Seq::<FamilyModel>::empty(), Seq::<Arg>::empty())
    } else {
        let rec = take_all_families(items.drop_first());
        if positional(items[0]) && family_of(items[0].value) is Some {
            (seq![family_of(items[0].value)->Some_0] + rec.0, rec.1)
        } else {
            (rec.0, seq![items[0]] + rec.1)
        }
    }
}

proof fn lemma_take_named_found(items: Seq<Arg>, key: Seq<char>, i: int)
    requires
        0 <= i < items.len(),
        named_is(items[i], key),
        forall|j: int| 0 <= j < i ==> !named_is(items[j], key),
    ensures
        take_named(items, key).0 == Some(items[i]),
        take_named(items, key).1 == items.remove(i),
    decreases i,
{
    if i == 0 {
        assert(items.drop_first() =~= items.remove(0));
    } else {
        lemma_take_named_found(items.drop_first(), key, i - 1);
        assert(seq![items[0]] + items.drop_first().remove(i - 1) =~= items.remove(i));
    }
}

proof fn lemma_take_named_missing(items: Seq<Arg>, key: Seq<char>)
    requires
        forall|j: int| 0 <= j < items.len() ==> !named_is(items[j], key),
    ensures
        take_named(items, key).0 is None,
        take_named(items, key).1 == items,
    decreases items.len(),
{
    if items.len() > 0 {
        lemma_take_named_missing(items.drop_first(), key);
        assert(seq![items[0]] + items.drop_first() =~= items);
    }
}

proof fn lemma_take_first_found(items: Seq<Arg>, ok: spec_fn(Value) -> bool, i: int)
    requires
        0 <= i < items.len(),
        positional(items[i]) && ok(items[i].value),
        forall|j: int| 0 <= j < i ==> !(positional(items[j]) && ok(items[j].value)),
    ensures
        take_first(items, ok).0 == Some(items[i]),
        take_first(items, ok).1 == items.remove(i),
    decreases i,
{
    if i == 0 {
        assert(items.drop_first() =~= items.remove(0));
    } else {
        lemma_take_first_found(items.drop_first(), ok, i - 1);
        assert(seq![items[0]] + items.drop_first().remove(i - 1) =~= items.remove(i));
    }
}

proof fn lemma_take_first_missing(items: Seq<Arg>, ok: spec_fn(Value) -> bool)
    requires
        forall|j: int| 0 <= j < items.len() ==> !(positional(items[j]) && ok(items[j].value)),
    ensures
        take_first(items, ok).0 is None,
        take_first(items, ok).1 == items,
    decreases items.len(),
{
    if items.len() > 0 {
        lemma_take_first_missing(items.drop_first(), ok);
        assert(seq![items[0]] + items.drop_first() =~= items);
    }
}

/// Character-wise string equality.
fn str_eq(a: &str, b: &str) -> (r: bool)
    ensures
        r == (a@ == b@),
{
    let na = a.unicode_len();
    let nb = b.unicode_len();
    if na != nb {
        return false;
    }
    let mut i: usize = 0;
    while i < na
        invariant
            i <= na,
            na == a@.len(),
            nb == b@.len(),
            na == nb,
            forall|j: int| 0 <= j < i ==> a@[j] == b@[j],
        decreases na - i,
    {
        if a.get_char(i) != b.get_char(i) {
            return false;
        }
        i += 1;
    }
    proof {
        assert(a@ =~= b@);
    }
    true
}

/// The argument list one command invocation receives, with the span of the
/// whole invocation.
#[derive(Debug)]
pub struct FuncArgs {
    pub span: u64,
    pub items: Vec<Arg>,
}

impl FuncArgs {
    /// Takes the first argument named `key` out of the list.
    pub fn take_named_arg(&mut self, key: &str) -> (r: Option<Arg>)
        ensures
            final(self).span == old(self).span,
            ({
                let t = take_named(old(self).items@, key@);
                final(self).items@ == t.1 && r == t.0
            }),
    {
        let mut i: usize = 0;
        while i < self.items.len()
            invariant
                i <= self.items.len(),
                self.items@ == old(self).items@,
                self.span == old(self).span,
                forall|j: int| 0 <= j < i ==> !named_is(old(self).items@[j], key@),
            decreases self.items.len() - i,
        {
            let matches_key = match &self.items[i].name {
                Some(n) => str_eq(n.as_str(), key),
                None => false,
            };
            if matches_key {
                let a = self.items.remove(i);
                proof {
                    lemma_take_named_found(old(self).items@, key@, i as int);
                }
                return Some(a);
            }
            i += 1;
        }
        proof {
            lemma_take_named_missing(old(self).items@, key@);
        }
        None
    }

    /// Takes the first positional argument that coerces to a linear length.
    pub fn eat_linear(&mut self) -> (r: Option<Linear>)
        ensures
            final(self).span == old(self).span,
            ({
                let t = take_linear(old(self).items@);
                final(self).items@ == t.1 && match (r, t.0) {
                    (Some(l), Some(a)) => linear_of(a.value) == Some(l),
                    (None, None) => true,
                    _ => false,
                }
            }),
    {
        let mut i: usize = 0;
        while i < self.items.len()
            invariant
                i <= self.items.len(),
                self.items@ == old(self).items@,
                self.span == old(self).span,
                forall|j: int|
                    0 <= j < i ==> !(positional(old(self).items@[j]) && linear_of(
                        old(self).items@[j].value,
                    ) is Some),
            decreases self.items.len() - i,
        {
            if self.items[i].name.is_none() {
                if let Some(l) = cast_linear(&self.items[i].value) {
                    self.items.remove(i);
                    proof {
                        lemma_take_first_found(
                            old(self).items@,
                            |v: Value| linear_of(v) is Some,
                            i as int,
                        );
                    }
                    return Some(l);
                }
            }
            i += 1;
        }
        proof {
            lemma_take_first_missing(old(self).items@, |v: Value| linear_of(v) is Some);
        }
        None
    }

    /// Takes the first positional argument that coerces to a color.
    pub fn eat_color(&mut self) -> (r: Option<crate::font::Color>)
        ensures
            final(self).span == old(self).span,
            ({
                let t = take_color(old(self).items@);
                final(self).items@ == t.1 && match (r, t.0) {
                    (Some(c), Some(a)) => color_of(a.value) == Some(c),
                    (None, None) => true,
                    _ => false,
                }
            }),
    {
        let mut i: usize = 0;
        while i < self.items.len()
            invariant
                i <= self.items.len(),
                self.items@ == old(self).items@,
                self.span == old(self).span,
                forall|j: int|
                    0 <= j < i ==> !(positional(old(self).items@[j]) && color_of(
                        old(self).items@[j].value,
                    ) is Some),
            decreases self.items.len() - i,
        {
            if self.items[i].name.is_none() {
                if let Some(c) = crate::value::cast_color(&self.items[i].value) {
                    self.items.remove(i);
                    proof {
                        lemma_take_first_found(
                            old(self).items@,
                            |v: Value| color_of(v) is Some,
                            i as int,
                        );
                    }
                    return Some(c);
                }
            }
            i += 1;
        }
        proof {
            lemma_take_first_missing(old(self).items@, |v: Value| color_of(v) is Some);
        }
        None
    }

    /// Takes the first positional string argument.
    pub fn eat_str(&mut self) -> (r: Option<String>)
        ensures
            final(self).span == old(self).span,
            ({
                let t = take_str(old(self).items@);
                final(self).items@ == t.1 && match (r, t.0) {
                    (Some(s), Some(a)) => str_of(a.value) == Some(s@),
                    (None, None) => true,
                    _ => false,
                }
            }),
    {
        let mut i: usize = 0;
        while i < self.items.len()
            invariant
                i <= self.items.len(),
                self.items@ == old(self).items@,
                self.span == old(self).span,
                forall|j: int|
                    0 <= j < i ==> !(positional(old(self).items@[j]) && str_of(
                        old(self).items@[j].value,
                    ) is Some),
            decreases self.items.len() - i,
        {
            if self.items[i].name.is_none() {
                let is_str = match &self.items[i].value {
                    Value::Str(_) => true,
                    _ => false,
                };
                if is_str {
                    let a = self.items.remove(i);
                    proof {
                        lemma_take_first_found(
                            old(self).items@,
                            |v: Value| str_of(v) is Some,
                            i as int,
                        );
                    }
                    match a.value {
                        Value::Str(s) => {
                            return Some(s);
                        },
                        _ => {
                            proof {
                                assert(false);
                            }
                            return None;
                        },
                    }
                }
            }
            i += 1;
        }
        proof {
            lemma_take_first_missing(old(self).items@, |v: Value| str_of(v) is Some);
        }
        None
    }

    /// Takes every positional family-coercible argument, coerced, in order.
    pub fn all_families(&mut self) -> (r: Vec<FontFamily>)
        ensures
            final(self).span == old(self).span,
            ({
                let t = take_all_families(old(self).items@);
                fam_seq(r@) == t.0 && final(self).items@ == t.1
            }),
    {
        let mut fams: Vec<FontFamily> = Vec::new();
        let mut rest: Vec<Arg> = Vec::new();
        while self.items.len() > 0
            invariant
                self.span == old(self).span,
                ({
                    let t = take_all_families(old(self).items@);
                    let c = take_all_families(self.items@);
                    t.0 == fam_seq(fams@) + c.0 && t.1 == rest@ + c.1
                }),
            decreases self.items.len(),
        {
            let ghost pre_items = self.items@;
            let ghost pre_fams = fams@;
            let ghost pre_rest = rest@;
            let a = self.items.remove(0);
            proof {
                assert(pre_items.remove(0) =~= pre_items.drop_first());
            }
            if a.name.is_none() {
                match cast_font_family(&a.value) {
                    Some(f) => {
                        fams.push(f);
                        proof {
                            assert(fam_seq(fams@) =~= fam_seq(pre_fams).push(f@));
                            assert(fam_seq(pre_fams) + (seq![family_of(a.value)->Some_0]
                                + take_all_families(self.items@).0) =~= fam_seq(fams@)
                                + take_all_families(self.items@).0);
                        }
                    },
                    None => {
                        rest.push(a);
                        proof {
                            assert(pre_rest + (seq![a] + take_all_families(self.items@).1)
                                =~= rest@ + take_all_families(self.items@).1);
                        }
                    },
                }
            } else {
                rest.push(a);
                proof {
                    assert(pre_rest + (seq![a] + take_all_families(self.items@).1) =~= rest@
                        + take_all_families(self.items@).1);
                }
            }
        }
        proof {
            assert(fam_seq(fams@) + take_all_families(self.items@).0 =~= fam_seq(fams@));
            assert(rest@ + take_all_families(self.items@).1 =~= rest@);
        }
        self.items = rest;
        fams
    }
}

} // verus!
