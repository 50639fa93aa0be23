//! The expansion of a seed: which implementations are emitted, and in which
//! order.

use crate::classify::{classify, Generator, SeedView};
use crate::error::{ExpandError, Fault};
use crate::form::{
    all_selectors, lemma_form_of_selector, lemma_selector_form_bijection, lemma_selector_named,
    selector_named, selector_of, Operate, Selector,
};
use crate::generator::{derived, Emitted, EmittedView};
use crate::model::{ImplModel, ImplView};
use crate::render::item_text;
use vstd::prelude::*;

verus! {

/// The selectors that a list of names holds, in the order of the names. A
/// name that is no selector's is passed over.
pub open spec fn recognised(names: Seq<Seq<char>>) -> Seq<Selector>
    decreases names.len(),
{
    if names.len() == 0 {
        Seq::empty()
    } else {
        match selector_named(names.last()) {
            Some(s) => recognised(names.drop_last()).push(s),
            None => recognised(names.drop_last()),
        }
    }
}

/// The number of times that `s` stands in `list`.
pub open spec fn occurrences(list: Seq<Selector>, s: Selector) -> nat
    decreases list.len(),
{
    if list.len() == 0 {
        0
    } else {
        occurrences(list.drop_last(), s) + (if list.last() == s {
            1nat
        } else {
            0nat
        })
    }
}

/// `list` without the repeats of `s`: where `s` stands more than once, its
/// first place is kept and the later ones are passed over. Every other
/// selector stays where it is, as often as it stands.
pub open spec fn without_repeats(list: Seq<Selector>, s: Selector) -> Seq<Selector>
    decreases list.len(),
{
    if list.len() == 0 {
        Seq::empty()
    } else if list.last() == s && list.drop_last().contains(s) {
        without_repeats(list.drop_last(), s)
    } else {
        without_repeats(list.drop_last(), s).push(list.last())
    }
}

/// The selectors that an attribute asks for, given the selector of the
/// seed's own form: all six where the attribute is empty; otherwise those
/// it names, in its order, with the seed's own only at the first place
/// where the attribute names it, or after them where it does not name it.
pub open spec fn requested(attrs: Seq<Seq<char>>, source: Selector) -> Seq<Selector> {
    if attrs.len() == 0 {
        all_selectors()
    } else if recognised(attrs).contains(source) {
        without_repeats(recognised(attrs), source)
    } else {
        without_repeats(recognised(attrs), source).push(source)
    }
}

/// What the selector `selector` contributes to the expansion of `seed`.
pub open spec fn emitted_for(seed: SeedView, selector: Selector, scoped_take: bool) -> EmittedView {
    let target = selector.spec_form(seed.source_op.op);
    if target == seed.source_op {
        EmittedView::Seed
    } else {
        EmittedView::Derived(derived(seed, target, scoped_take))
    }
}

/// The expansion of an implementation under an attribute: a refusal where
/// the implementation cannot be classified or assigns through a reference;
/// otherwise one item for each selector asked for, in order.
pub open spec fn expansion(attrs: Seq<Seq<char>>, implement: ImplView, scoped_take: bool) -> Result<
    Seq<EmittedView>,
    Fault,
> {
    match classify(implement) {
        Err(e) => Err(e),
        Ok(seed) => if !seed.source_op.valid() {
            Err(Fault::AssignLhsReference)
        } else {
            Ok(
                requested(attrs, selector_of(seed.source_op)).map_values(
                    |s: Selector| emitted_for(seed, s, scoped_take),
                ),
            )
        },
    }
}

/// The selectors that the attribute `attrs` asks for, for a seed whose own
/// selector is `source`.
pub fn plan(attrs: &Vec<String>, source: Selector) -> (r: Vec<Selector>)
    ensures
        r@ == requested(attrs.deep_view(), source),
{
    if attrs.len() == 0 {
        return Selector::all();
    }
    let ghost names = attrs.deep_view();
    let mut list: Vec<Selector> = Vec::new();
    let mut listed = false;
    let mut i: usize = 0;
    while i < attrs.len()
        invariant
            i <= attrs.len(),
            names == attrs.deep_view(),
            list@ == without_repeats(recognised(names.take(i as int)), source),
            listed == recognised(names.take(i as int)).contains(source),
        decreases attrs.len() - i,
    {
        let name = attrs[i].as_str();
        let ghost before = recognised(names.take(i as int));
        proof {
            assert(names.take(i as int + 1).drop_last() =~= names.take(i as int));
            assert(names.take(i as int + 1).last() == name@);
        }
        match Selector::from_name(name) {
            Some(s) => {
                proof {
                    lemma_contains_push(before, s, source);
                    assert(before.push(s).drop_last() =~= before);
                }
                if s == source {
                    if !listed {
                        list.push(s);
                        listed = true;
                    }
                } else {
                    list.push(s);
                }
            },
            None => {},
        }
        i += 1;
    }
    assert(names.take(attrs.len() as int) =~= names);
    if !listed {
        list.push(source);
    }
    list
}

/// A list with one more selector at its end holds `s` where the list did,
/// and where the selector is `s`.
pub proof fn lemma_contains_push(list: Seq<Selector>, last: Selector, s: Selector)
    ensures
        list.push(last).contains(s) <==> list.contains(s) || last == s,
{
    let longer = list.push(last);
    if list.contains(s) {
        let k = choose|k: int| 0 <= k < list.len() && list[k] == s;
        assert(longer[k] == s);
    }
    if last == s {
        assert(longer[list.len() as int] == s);
    }
    if longer.contains(s) {
        let k = choose|k: int| 0 <= k < longer.len() && longer[k] == s;
        if k < list.len() {
            assert(list[k] == s);
        }
    }
}

/// A selector stands in no place of a list exactly where it occurs there
/// no times.
pub proof fn lemma_occurrences_none(list: Seq<Selector>, s: Selector)
    ensures
        occurrences(list, s) == 0 <==> !list.contains(s),
    decreases list.len(),
{
    if list.len() > 0 {
        lemma_occurrences_none(list.drop_last(), s);
        lemma_contains_push(list.drop_last(), list.last(), s);
        assert(list.drop_last().push(list.last()) =~= list);
    }
}

/// Passing over the repeats of `s` leaves `s` once where it stood at all,
/// changes nothing where it stood at most once, and leaves every other
/// selector as often as it stood.
pub proof fn lemma_without_repeats(list: Seq<Selector>, s: Selector)
    ensures
        without_repeats(list, s).contains(s) <==> list.contains(s),
        occurrences(without_repeats(list, s), s) == (if list.contains(s) {
            1nat
        } else {
            0nat
        }),
        occurrences(list, s) <= 1 ==> without_repeats(list, s) == list,
        forall|other: Selector|
            other != s ==> occurrences(without_repeats(list, s), other) == occurrences(
                list,
                other,
            ),
    decreases list.len(),
{
    if list.len() > 0 {
        let front = list.drop_last();
        let last = list.last();
        lemma_without_repeats(front, s);
        lemma_contains_push(front, last, s);
        lemma_occurrences_none(front, s);
        assert(front.push(last) =~= list);
        let kept = without_repeats(front, s);
        lemma_contains_push(kept, last, s);
        assert(kept.push(last).drop_last() =~= kept);
        assert forall|other: Selector| other != s implies occurrences(
            without_repeats(list, s),
            other,
        ) == occurrences(list, other) by {
            assert(occurrences(kept, other) == occurrences(front, other));
            assert(kept.push(last).drop_last() =~= kept);
            assert(kept.push(last).last() == last);
            assert(occurrences(kept.push(last), other) == occurrences(kept, other) + (if last
                == other {
                1nat
            } else {
                0nat
            }));
        }
    }
}

/// Two places of a list that hold a selector which occurs there once are
/// the same place.
pub proof fn lemma_once_is_one_place(list: Seq<Selector>, s: Selector, i: int, j: int)
    requires
        occurrences(list, s) == 1,
        0 <= i < list.len(),
        0 <= j < list.len(),
        list[i] == s,
        list[j] == s,
    ensures
        i == j,
    decreases list.len(),
{
    let front = list.drop_last();
    lemma_occurrences_none(front, s);
    if list.last() == s {
        if i < front.len() {
            assert(front[i] == s);
        }
        if j < front.len() {
            assert(front[j] == s);
        }
    } else {
        lemma_once_is_one_place(front, s, i, j);
    }
}

/// Expands the implementation `implement` under the attribute `attrs`.
///
/// `scoped_take` chooses how a derived compound assignment gets at the value
/// behind `&mut self` when the seed consumes its left operand: by a scoped
/// take, or by swapping a default value in.
pub fn auto_ops_generate(attrs: &Vec<String>, implement: &ImplModel, scoped_take: bool) -> (r:
    Result<Vec<Emitted>, ExpandError>)
    ensures
        match r {
            Ok(items) => expansion(attrs.deep_view(), implement@, scoped_take) == Ok::<
                Seq<EmittedView>,
                Fault,
            >(items.deep_view()),
            Err(e) => expansion(attrs.deep_view(), implement@, scoped_take) == Err::<
                Seq<EmittedView>,
                Fault,
            >(e@),
        },
{
    let generator = match Generator::new(implement) {
        Ok(g) => g,
        Err(e) => {
            return Err(e);
        },
    };
    let source = match Selector::of_form(generator.source_op) {
        Some(s) => s,
        None => {
            return Err(ExpandError::AssignLhsReference);
        },
    };
    let list = plan(attrs, source);
    let ghost wanted = list@.map_values(|s: Selector| emitted_for(generator@, s, scoped_take));
    let mut result: Vec<Emitted> = Vec::new();
    let mut i: usize = 0;
    while i < list.len()
        invariant
            i <= list.len(),
            result.len() == i,
            wanted == list@.map_values(|s: Selector| emitted_for(generator@, s, scoped_take)),
            forall|j: int| 0 <= j < i ==> result[j]@ == wanted[j],
        decreases list.len() - i,
    {
        let op = list[i].form(generator.source_op.op);
        match generator.generate(op, scoped_take) {
            Ok(item) => {
                result.push(item);
            },
            Err(e) => {
                return Err(e);
            },
        }
        i += 1;
    }
    assert(result.deep_view() =~= wanted);
    Ok(result)
}

/// The text of each item of an expansion, in order: `None` where the seed
/// itself is given back.
pub open spec fn expansion_texts(
    attrs: Seq<Seq<char>>,
    implement: ImplView,
    scoped_take: bool,
) -> Result<Seq<Option<Seq<char>>>, Fault> {
    match expansion(attrs, implement, scoped_take) {
        Err(e) => Err(e),
        Ok(items) => Ok(items.map_values(|e: EmittedView| item_text(e))),
    }
}

/// Expands the implementation `implement` under the attribute `attrs`, and
/// writes each derived implementation out as text. Where the seed itself is
/// given back the list holds `None`.
pub fn auto_ops_texts(attrs: &Vec<String>, implement: &ImplModel, scoped_take: bool) -> (r:
    Result<Vec<Option<String>>, ExpandError>)
    ensures
        match r {
            Ok(texts) => expansion_texts(attrs.deep_view(), implement@, scoped_take) == Ok::<
                Seq<Option<Seq<char>>>,
                Fault,
            >(texts.deep_view()),
            Err(e) => expansion_texts(attrs.deep_view(), implement@, scoped_take) == Err::<
                Seq<Option<Seq<char>>>,
                Fault,
            >(e@),
        },
{
    let items = match auto_ops_generate(attrs, implement, scoped_take) {
        Ok(items) => items,
        Err(e) => {
            return Err(e);
        },
    };
    let ghost wanted = items.deep_view().map_values(|e: EmittedView| item_text(e));
    let mut texts: Vec<Option<String>> = Vec::new();
    let mut i: usize = 0;
    while i < items.len()
        invariant
            i <= items.len(),
            texts.len() == i,
            wanted == items.deep_view().map_values(|e: EmittedView| item_text(e)),
            forall|j: int| 0 <= j < i ==> texts[j].deep_view() == wanted[j],
        decreases items.len() - i,
    {
        let text = items[i].to_text();
        assert(items.deep_view()[i as int] == items[i as int]@);
        texts.push(text);
        i += 1;
    }
    assert(texts.deep_view() =~= wanted);
    Ok(texts)
}

/// The selectors of a list of names come in the order of the names: those
/// of a list's front part come first, then those of its back part.
pub proof fn lemma_recognised_in_order(front: Seq<Seq<char>>, back: Seq<Seq<char>>)
    ensures
        recognised(front + back) == recognised(front) + recognised(back),
    decreases back.len(),
{
    if back.len() == 0 {
        assert(front + back =~= front);
        assert(recognised(front) + recognised(back) =~= recognised(front));
    } else {
        lemma_recognised_in_order(front, back.drop_last());
        assert((front + back).drop_last() =~= front + back.drop_last());
        assert((front + back).last() == back.last());
        match selector_named(back.last()) {
            Some(s) => {
                assert(recognised(front + back) =~= recognised(front) + recognised(back));
            },
            None => {},
        }
    }
}

/// One name gives its selector, or nothing where it is no selector's.
pub proof fn lemma_recognised_one(name: Seq<char>)
    ensures
        recognised(seq![name]) == match selector_named(name) {
            Some(s) => seq![s],
            None => Seq::<Selector>::empty(),
        },
{
    let names = seq![name];
    assert(names.drop_last() =~= Seq::<Seq<char>>::empty());
    assert(names.last() == name);
    assert(recognised(names.drop_last()) =~= Seq::<Selector>::empty());
    match selector_named(name) {
        Some(s) => {
            assert(recognised(names) =~= seq![s]);
        },
        None => {},
    }
}

/// A selector is among those of a list of names exactly where its name
/// is in the list.
pub proof fn lemma_recognised_contains(names: Seq<Seq<char>>, s: Selector)
    ensures
        recognised(names).contains(s) <==> names.contains(s.spec_name()),
    decreases names.len(),
{
    lemma_selector_named(s);
    if names.len() > 0 {
        let front = names.drop_last();
        let last = names.last();
        lemma_recognised_contains(front, s);
        assert(front.push(last) =~= names);
        if names.contains(s.spec_name()) {
            let k = choose|k: int| 0 <= k < names.len() && names[k] == s.spec_name();
            if k < front.len() {
                assert(front[k] == s.spec_name());
            }
        }
        if front.contains(s.spec_name()) {
            let k = choose|k: int| 0 <= k < front.len() && front[k] == s.spec_name();
            assert(names[k] == s.spec_name());
        }
        if last == s.spec_name() {
            assert(names[names.len() - 1] == s.spec_name());
        }
        match selector_named(last) {
            Some(t) => {
                lemma_contains_push(recognised(front), t, s);
                if t == s {
                    lemma_name_of_selector(last);
                }
            },
            None => {},
        }
    }
}

/// A name that is a selector's is that selector's name.
pub proof fn lemma_name_of_selector(name: Seq<char>)
    ensures
        selector_named(name) matches Some(s) ==> s.spec_name() == name,
{
}

/// An attribute that names the seed's own selector and nothing else asks
/// for that selector alone.
pub proof fn lemma_own_selector_alone(source: Selector)
    ensures
        requested(seq![source.spec_name()], source) == seq![source],
{
    let attrs = seq![source.spec_name()];
    lemma_recognised_one(source.spec_name());
    lemma_selector_named(source);
    let named = seq![source];
    let none = Seq::<Selector>::empty();
    assert(named[0] == source);
    assert(named.drop_last() =~= none);
    assert(!none.contains(source));
    assert(without_repeats(none, source) =~= none);
    assert(without_repeats(named, source) =~= none.push(source));
    assert(without_repeats(named, source) =~= named);
}

/// Whatever the attribute, the seed's own selector is among those asked
/// for, and it is there exactly once.
pub proof fn lemma_own_selector_requested(attrs: Seq<Seq<char>>, source: Selector)
    ensures
        requested(attrs, source).contains(source),
        occurrences(requested(attrs, source), source) == 1,
        forall|i: int, j: int|
            0 <= i < requested(attrs, source).len() && 0 <= j < requested(attrs, source).len()
                && requested(attrs, source)[i] == source && requested(attrs, source)[j]
                == source ==> i == j,
{
    let list = requested(attrs, source);
    if attrs.len() == 0 {
        lemma_all_selectors_once(source);
    } else {
        let named = recognised(attrs);
        let kept = without_repeats(named, source);
        lemma_without_repeats(named, source);
        if !named.contains(source) {
            lemma_contains_push(kept, source, source);
            assert(kept.push(source).drop_last() =~= kept);
        }
    }
    assert forall|i: int, j: int|
        0 <= i < list.len() && 0 <= j < list.len() && list[i] == source && list[j]
            == source implies i == j by {
        lemma_once_is_one_place(list, source, i, j);
    }
}

/// Each selector stands once among the six.
pub proof fn lemma_all_selectors_once(s: Selector)
    ensures
        all_selectors().contains(s),
        occurrences(all_selectors(), s) == 1,
{
    let e = Seq::<Selector>::empty();
    let l1 = e.push(Selector::AssignRef);
    let l2 = l1.push(Selector::AssignVal);
    let l3 = l2.push(Selector::RefRef);
    let l4 = l3.push(Selector::RefVal);
    let l5 = l4.push(Selector::ValRef);
    let l6 = l5.push(Selector::ValVal);
    assert(l1.drop_last() =~= e);
    assert(l2.drop_last() =~= l1);
    assert(l3.drop_last() =~= l2);
    assert(l4.drop_last() =~= l3);
    assert(l5.drop_last() =~= l4);
    assert(l6.drop_last() =~= l5);
    assert(l6 =~= all_selectors());
    assert(occurrences(e, s) == 0);
    assert(occurrences(l1, s) == occurrences(e, s) + (if Selector::AssignRef == s {
        1nat
    } else {
        0nat
    }));
    assert(occurrences(l2, s) == occurrences(l1, s) + (if Selector::AssignVal == s {
        1nat
    } else {
        0nat
    }));
    assert(occurrences(l3, s) == occurrences(l2, s) + (if Selector::RefRef == s {
        1nat
    } else {
        0nat
    }));
    assert(occurrences(l4, s) == occurrences(l3, s) + (if Selector::RefVal == s {
        1nat
    } else {
        0nat
    }));
    assert(occurrences(l5, s) == occurrences(l4, s) + (if Selector::ValRef == s {
        1nat
    } else {
        0nat
    }));
    assert(occurrences(l6, s) == occurrences(l5, s) + (if Selector::ValVal == s {
        1nat
    } else {
        0nat
    }));
    lemma_occurrences_none(all_selectors(), s);
}

/// Where the attribute names the seed's own selector at most once, every
/// selector that it names is asked for at its place, as often as it is
/// named: the list is that of the attribute's selectors, with the seed's
/// own after them where the attribute does not name it.
pub proof fn lemma_requested_in_order(attrs: Seq<Seq<char>>, source: Selector)
    requires
        attrs.len() > 0,
        occurrences(recognised(attrs), source) <= 1,
    ensures
        requested(attrs, source) == if recognised(attrs).contains(source) {
            recognised(attrs)
        } else {
            recognised(attrs).push(source)
        },
{
    lemma_without_repeats(recognised(attrs), source);
}

/// An empty attribute asks for six selectors, and every selector is asked
/// for exactly once.
pub proof fn lemma_empty_attribute_requests_all(source: Selector)
    ensures
        requested(Seq::empty(), source).len() == 6,
        requested(Seq::empty(), source).no_duplicates(),
        forall|s: Selector| #[trigger] requested(Seq::empty(), source).contains(s),
{
    let all = requested(Seq::empty(), source);
    assert(all == all_selectors());
    assert forall|s: Selector| #[trigger] all.contains(s) by {
        match s {
            Selector::AssignRef => assert(all[0] == s),
            Selector::AssignVal => assert(all[1] == s),
            Selector::RefRef => assert(all[2] == s),
            Selector::RefVal => assert(all[3] == s),
            Selector::ValRef => assert(all[4] == s),
            Selector::ValVal => assert(all[5] == s),
        }
    }
}

/// A name that is no selector's changes nothing: the attribute asks for
/// what it asks for without that name, as long as a name is left. (With no
/// name left the attribute is empty, and asks for all six.)
pub proof fn lemma_unknown_name_skipped(
    front: Seq<Seq<char>>,
    name: Seq<char>,
    back: Seq<Seq<char>>,
    source: Selector,
)
    requires
        selector_named(name) is None,
        front.len() + back.len() > 0,
    ensures
        requested(front + seq![name] + back, source) == requested(front + back, source),
{
    let with = front + seq![name] + back;
    let without = front + back;
    lemma_recognised_in_order(front + seq![name], back);
    lemma_recognised_in_order(front, seq![name]);
    lemma_recognised_one(name);
    lemma_recognised_in_order(front, back);
    assert(recognised(front) + Seq::<Selector>::empty() =~= recognised(front));
    assert(recognised(with) == recognised(without));
}

/// Expanding a seed under an attribute that names the seed's own selector
/// and nothing else gives back the seed, and nothing more.
pub proof fn lemma_expansion_of_own_selector(implement: ImplView, scoped_take: bool)
    requires
        classify(implement) is Ok,
        classify(implement)->Ok_0.source_op.valid(),
    ensures
        expansion(
            seq![selector_of(classify(implement)->Ok_0.source_op).spec_name()],
            implement,
            scoped_take,
        ) == Ok::<Seq<EmittedView>, Fault>(seq![EmittedView::Seed]),
{
    let seed = classify(implement)->Ok_0;
    let source = selector_of(seed.source_op);
    lemma_own_selector_alone(source);
    lemma_form_of_selector(seed.source_op);
    let items = seq![source].map_values(|s: Selector| emitted_for(seed, s, scoped_take));
    assert(items =~= seq![EmittedView::Seed]);
}

/// Every expansion that succeeds holds the seed, and holds it once; each
/// item stands for its selector, in the order in which the selectors are
/// asked for, and is the seed exactly where the selector is the seed's own.
pub proof fn lemma_expansion_holds_seed(attrs: Seq<Seq<char>>, implement: ImplView, scoped_take: bool)
    requires
        expansion(attrs, implement, scoped_take) is Ok,
    ensures
        expansion(attrs, implement, scoped_take)->Ok_0.contains(EmittedView::Seed),
        expansion(attrs, implement, scoped_take)->Ok_0.len() == requested(
            attrs,
            selector_of(classify(implement)->Ok_0.source_op),
        ).len(),
        forall|i: int|
            0 <= i < expansion(attrs, implement, scoped_take)->Ok_0.len() ==> (
            #[trigger] expansion(attrs, implement, scoped_take)->Ok_0[i] == EmittedView::Seed
                <==> requested(attrs, selector_of(classify(implement)->Ok_0.source_op))[i]
                == selector_of(classify(implement)->Ok_0.source_op)),
        forall|i: int, j: int|
            0 <= i < expansion(attrs, implement, scoped_take)->Ok_0.len() && 0 <= j < expansion(
                attrs,
                implement,
                scoped_take,
            )->Ok_0.len() && expansion(attrs, implement, scoped_take)->Ok_0[i]
                == EmittedView::Seed && expansion(attrs, implement, scoped_take)->Ok_0[j]
                == EmittedView::Seed ==> i == j,
{
    let seed = classify(implement)->Ok_0;
    let source = selector_of(seed.source_op);
    let list = requested(attrs, source);
    let items = expansion(attrs, implement, scoped_take)->Ok_0;
    lemma_own_selector_requested(attrs, source);
    lemma_form_of_selector(seed.source_op);
    let k = choose|k: int| 0 <= k < list.len() && list[k] == source;
    assert(items[k] == EmittedView::Seed);
    assert forall|i: int| 0 <= i < items.len() implies (#[trigger] items[i] == EmittedView::Seed
        <==> list[i] == source) by {
        lemma_selector_form_bijection(list[i], source, seed.source_op.op);
    }
    assert forall|i: int, j: int|
        0 <= i < items.len() && 0 <= j < items.len() && items[i] == EmittedView::Seed
            && items[j] == EmittedView::Seed implies i == j by {
        assert(list[i] == source);
        assert(list[j] == source);
    }
}

/// Under an empty attribute a seed expands to six items, one for each form
/// of its family: every form that exists in the family is the form of
/// exactly one item.
pub proof fn lemma_expansion_covers_family(implement: ImplView, scoped_take: bool, form: Operate)
    requires
        expansion(Seq::empty(), implement, scoped_take) is Ok,
        form.valid(),
        form.op.family() == classify(implement)->Ok_0.source_op.op.family(),
    ensures
        expansion(Seq::empty(), implement, scoped_take)->Ok_0.len() == 6,
        forall|i: int|
            0 <= i < 6 ==> #[trigger] expansion(Seq::empty(), implement, scoped_take)->Ok_0[i]
                == emitted_for(classify(implement)->Ok_0, all_selectors()[i], scoped_take),
        exists|i: int|
            0 <= i < 6 && #[trigger] all_selectors()[i].spec_form(
                classify(implement)->Ok_0.source_op.op,
            ) == form,
        forall|i: int, j: int|
            0 <= i < 6 && 0 <= j < 6 && all_selectors()[i].spec_form(
                classify(implement)->Ok_0.source_op.op,
            ) == form && all_selectors()[j].spec_form(classify(implement)->Ok_0.source_op.op)
                == form ==> i == j,
{
    let seed = classify(implement)->Ok_0;
    let op = seed.source_op.op;
    let source = selector_of(seed.source_op);
    let all = all_selectors();
    lemma_empty_attribute_requests_all(source);
    lemma_form_of_selector(form);
    crate::catalog::lemma_member_of_family(form.op);
    let s = selector_of(form);
    assert(s.spec_form(op) == form);
    assert(all.contains(s));
    let k = choose|k: int| 0 <= k < all.len() && all[k] == s;
    assert(all[k].spec_form(op) == form);
    assert forall|i: int, j: int|
        0 <= i < 6 && 0 <= j < 6 && all[i].spec_form(op) == form && all[j].spec_form(op)
            == form implies i == j by {
        lemma_selector_form_bijection(all[i], all[j], op);
    }
}

/// A name that is no selector's changes no expansion, as long as the
/// attribute holds another name.
pub proof fn lemma_expansion_skips_unknown_name(
    front: Seq<Seq<char>>,
    name: Seq<char>,
    back: Seq<Seq<char>>,
    implement: ImplView,
    scoped_take: bool,
)
    requires
        selector_named(name) is None,
        front.len() + back.len() > 0,
    ensures
        expansion(front + seq![name] + back, implement, scoped_take) == expansion(
            front + back,
            implement,
            scoped_take,
        ),
{
    if classify(implement) is Ok {
        let seed = classify(implement)->Ok_0;
        lemma_unknown_name_skipped(front, name, back, selector_of(seed.source_op));
    }
}

} // verus!
