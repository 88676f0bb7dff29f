//! The one-to-one correspondence between the page configurations of a spec and its
//! page-type menu nodes, once the spec resolves.
use crate::api::{PageSpecView, PrimaryMenuSpecView};
use crate::manifest::naming::{spec_menu_name_for_suffix, spec_nested_menu_parent, spec_route_suffix_for_child};
use crate::manifest::resolve::{
    page_keys, spec_bind_page, spec_check_pages, spec_find_page, spec_first_orphan, spec_resolve_children,
    spec_resolve_menus, spec_resolve_one, spec_resolve_spec, spec_validate_key, ResolvedPageBindingView,
    ResolvedTopMenuView,
};
use vstd::prelude::*;

verus! {

/// The page keys bound by a list of menu nodes, in order.
pub open spec fn child_keys(children: Seq<ResolvedPageBindingView>) -> Seq<Seq<char>> {
    children.map_values(|b: ResolvedPageBindingView| b.page.key)
}

/// The page keys bound by one resolved top-level menu.
pub open spec fn top_keys(r: ResolvedTopMenuView) -> Seq<Seq<char>> {
    match r {
        ResolvedTopMenuView::Page(b) => seq![b.page.key],
        ResolvedTopMenuView::Organization { children, .. } => child_keys(children),
    }
}

/// The page keys bound by resolved top-level menus, in order.
pub open spec fn bound_keys(resolved: Seq<ResolvedTopMenuView>) -> Seq<Seq<char>>
    decreases resolved.len(),
{
    if resolved.len() == 0 {
        Seq::empty()
    } else {
        bound_keys(resolved.drop_last()) + top_keys(resolved.last())
    }
}

/// The keys bound so far are distinct and each names a page configuration.
spec fn bound_ok(pages: Seq<PageSpecView>, bound: Seq<Seq<char>>) -> bool {
    &&& bound.no_duplicates()
    &&& forall|j: int| 0 <= j < bound.len() ==> page_keys(pages).contains(#[trigger] bound[j])
}

proof fn lemma_find_page(pages: Seq<PageSpecView>, key: Seq<char>)
    ensures
        spec_find_page(pages, key) matches Some(p) ==> p.key == key && page_keys(pages).contains(key),
    decreases pages.len(),
{
    if pages.len() > 0 && pages[0].key != key {
        lemma_find_page(pages.drop_first(), key);
        if spec_find_page(pages.drop_first(), key) is Some {
            let k = choose|k: int| 0 <= k < page_keys(pages.drop_first()).len() && page_keys(pages.drop_first())[k] == key;
            assert(page_keys(pages)[k + 1] == key);
        }
    } else if pages.len() > 0 {
        assert(page_keys(pages)[0] == key);
    }
}

proof fn lemma_bind(fi_name: Seq<char>, key: Seq<char>, pages: Seq<PageSpecView>, bound: Seq<Seq<char>>)
    requires
        bound_ok(pages, bound),
    ensures
        spec_bind_page(fi_name, key, pages, bound) matches Ok((p, b2)) ==> p.key == key && b2 == bound.push(key)
            && bound_ok(pages, b2),
{
    lemma_find_page(pages, key);
    if spec_bind_page(fi_name, key, pages, bound) is Ok {
        let b2 = bound.push(key);
        assert forall|i: int, j: int| 0 <= i < b2.len() && 0 <= j < b2.len() && i != j implies b2[i] != b2[j] by {
            if i == bound.len() {
                assert(!bound.contains(key));
                assert(b2[j] == bound[j]);
            } else if j == bound.len() {
                assert(!bound.contains(key));
                assert(b2[i] == bound[i]);
            }
        }
        assert forall|j: int| 0 <= j < b2.len() implies page_keys(pages).contains(#[trigger] b2[j]) by {
            if j < bound.len() {
                assert(b2[j] == bound[j]);
            }
        }
    }
}

proof fn lemma_children(
    fi_name: Seq<char>,
    menu: PrimaryMenuSpecView,
    pages: Seq<PageSpecView>,
    j: int,
    base: Seq<Seq<char>>,
    bound: Seq<Seq<char>>,
    acc: Seq<ResolvedPageBindingView>,
)
    requires
        bound == base + child_keys(acc),
        bound_ok(pages, bound),
    ensures
        spec_resolve_children(fi_name, menu, pages, j, bound, acc) matches Ok((acc2, b2)) ==> b2 == base
            + child_keys(acc2) && bound_ok(pages, b2),
    decreases menu.children.len() - j,
{
    if 0 <= j < menu.children.len() {
        let child = menu.children[j];
        lemma_bind(fi_name, child.key, pages, bound);
        if spec_validate_key(fi_name, child.key, true) is None {
            if let Ok((page, bound2)) = spec_bind_page(fi_name, child.key, pages, bound) {
                let route_suffix = spec_route_suffix_for_child(menu.key, child.key);
                let binding = ResolvedPageBindingView {
                    title: child.display_name,
                    placement: menu.placement,
                    route_suffix,
                    menu_name: spec_menu_name_for_suffix(fi_name, route_suffix),
                    parent: spec_nested_menu_parent(menu.placement, spec_menu_name_for_suffix(fi_name, menu.key)),
                    page,
                };
                assert(child_keys(acc.push(binding)) =~= child_keys(acc).push(child.key));
                assert(bound2 =~= base + child_keys(acc.push(binding)));
                lemma_children(fi_name, menu, pages, j + 1, base, bound2, acc.push(binding));
            }
        }
    }
}

proof fn lemma_one(
    fi_name: Seq<char>,
    menu: PrimaryMenuSpecView,
    pages: Seq<PageSpecView>,
    top: Seq<Seq<char>>,
    bound: Seq<Seq<char>>,
)
    requires
        bound_ok(pages, bound),
    ensures
        spec_resolve_one(fi_name, menu, pages, top, bound) matches Ok((r, t2, b2)) ==> b2 == bound + top_keys(r)
            && bound_ok(pages, b2),
{
    lemma_bind(fi_name, menu.key, pages, bound);
    assert(child_keys(Seq::<ResolvedPageBindingView>::empty()) =~= Seq::<Seq<char>>::empty());
    assert(bound =~= bound + child_keys(Seq::<ResolvedPageBindingView>::empty()));
    lemma_children(fi_name, menu, pages, 0, bound, bound, seq![]);
    if let Ok((r, t2, b2)) = spec_resolve_one(fi_name, menu, pages, top, bound) {
        if let ResolvedTopMenuView::Page(b) = r {
            assert(b2 =~= bound + top_keys(r));
        }
    }
}

proof fn lemma_menus(
    fi_name: Seq<char>,
    menus: Seq<PrimaryMenuSpecView>,
    pages: Seq<PageSpecView>,
    i: int,
    top: Seq<Seq<char>>,
    bound: Seq<Seq<char>>,
    acc: Seq<ResolvedTopMenuView>,
)
    requires
        bound == bound_keys(acc),
        bound_ok(pages, bound),
    ensures
        spec_resolve_menus(fi_name, menus, pages, i, top, bound, acc) matches Ok((acc2, b2)) ==> b2 == bound_keys(
            acc2,
        ) && bound_ok(pages, b2),
    decreases menus.len() - i,
{
    if 0 <= i < menus.len() {
        lemma_one(fi_name, menus[i], pages, top, bound);
        if let Ok((r, top2, bound2)) = spec_resolve_one(fi_name, menus[i], pages, top, bound) {
            assert(acc.push(r).drop_last() =~= acc);
            assert(bound_keys(acc.push(r)) == bound_keys(acc) + top_keys(r));
            lemma_menus(fi_name, menus, pages, i + 1, top2, bound2, acc.push(r));
        }
    }
}

proof fn lemma_no_orphan(pages: Seq<PageSpecView>, i: int, bound: Seq<Seq<char>>)
    requires
        0 <= i,
        spec_first_orphan(pages, i, bound) is None,
    ensures
        forall|j: int| i <= j < pages.len() ==> bound.contains(#[trigger] pages[j].key),
    decreases pages.len() - i,
{
    if i < pages.len() {
        lemma_no_orphan(pages, i + 1, bound);
    }
}

proof fn lemma_checked_pages_distinct(fi_name: Seq<char>, pages: Seq<PageSpecView>, i: int, seen: Seq<Seq<char>>)
    requires
        0 <= i,
        spec_check_pages(fi_name, pages, i, seen) is None,
    ensures
        forall|j: int| i <= j < pages.len() ==> !seen.contains(#[trigger] pages[j].key),
        forall|j: int, k: int| i <= j < k < pages.len() ==> pages[j].key != pages[k].key,
    decreases pages.len() - i,
{
    if i < pages.len() {
        let p = pages[i];
        lemma_checked_pages_distinct(fi_name, pages, i + 1, seen.push(p.key));
        assert forall|j: int| i <= j < pages.len() implies !seen.contains(#[trigger] pages[j].key) by {
            if j > i {
                if seen.contains(pages[j].key) {
                    let k = choose|k: int| 0 <= k < seen.len() && seen[k] == pages[j].key;
                    assert(seen.push(p.key)[k] == pages[j].key);
                }
            }
        }
        assert forall|j: int, k: int| i <= j < k < pages.len() implies pages[j].key != pages[k].key by {
            if j == i {
                assert(seen.push(p.key)[seen.len() as int] == p.key);
                assert(!seen.push(p.key).contains(pages[k].key));
            }
        }
    }
}

/// When a spec resolves, its page configurations and its page-type menu nodes correspond one
/// to one: the page keys are distinct, the keys bound by the menu nodes are distinct, every
/// page configuration is bound by a menu node and every menu node is bound to a page
/// configuration of the spec.
pub proof fn law_pages_and_menu_nodes_correspond(
    menus: Seq<PrimaryMenuSpecView>,
    pages: Seq<PageSpecView>,
    fi_name: Seq<char>,
)
    requires
        spec_resolve_spec(menus, pages, fi_name) is Ok,
    ensures
        page_keys(pages).no_duplicates(),
        bound_keys(spec_resolve_spec(menus, pages, fi_name)->Ok_0).no_duplicates(),
        forall|i: int|
            0 <= i < pages.len() ==> bound_keys(spec_resolve_spec(menus, pages, fi_name)->Ok_0).contains(
                #[trigger] pages[i].key,
            ),
        forall|j: int|
            0 <= j < bound_keys(spec_resolve_spec(menus, pages, fi_name)->Ok_0).len() ==> page_keys(pages).contains(
                #[trigger] bound_keys(spec_resolve_spec(menus, pages, fi_name)->Ok_0)[j],
            ),
{
    lemma_checked_pages_distinct(fi_name, pages, 0, seq![]);
    assert forall|a: int, b: int|
        0 <= a < page_keys(pages).len() && 0 <= b < page_keys(pages).len() && a != b implies page_keys(pages)[a]
        != page_keys(pages)[b] by {
        if a < b {
            assert(pages[a].key != pages[b].key);
        } else {
            assert(pages[b].key != pages[a].key);
        }
    }
    let empty_bound = Seq::<Seq<char>>::empty();
    assert(bound_keys(Seq::<ResolvedTopMenuView>::empty()) == empty_bound);
    lemma_menus(fi_name, menus, pages, 0, empty_bound, empty_bound, seq![]);
    let (resolved, bound) = spec_resolve_menus(fi_name, menus, pages, 0, seq![], seq![], seq![])->Ok_0;
    lemma_no_orphan(pages, 0, bound);
}

} // verus!
