//! Validation of the menu tree and its page configurations, and the binding of every
//! page-type menu node to its page configuration.
use crate::api::{
    ManifestRenderError, ManifestRenderErrorView, MenuNodeType, MenuPlacement, PageSpec, PageSpecView,
    PageType, PrimaryMenuSpec, PrimaryMenuSpecView, placement_str,
};
use crate::duplicate::Duplicate;
use crate::manifest::naming::{
    menu_name_for_suffix, nested_menu_parent, route_suffix_for_child, route_suffix_for_menu,
    spec_menu_name_for_suffix, spec_nested_menu_parent, spec_route_suffix_for_child,
    spec_route_suffix_for_menu,
};
use crate::text::{is_valid_key, spec_valid_key};
use vstd::prelude::*;

verus! {

/// A page-type menu node bound to its page configuration.
pub struct ResolvedPageBinding {
    pub title: String,
    pub placement: MenuPlacement,
    pub route_suffix: String,
    pub menu_name: String,
    pub parent: String,
    pub page: PageSpec,
}

pub struct ResolvedPageBindingView {
    pub title: Seq<char>,
    pub placement: MenuPlacement,
    pub route_suffix: Seq<char>,
    pub menu_name: Seq<char>,
    pub parent: Seq<char>,
    pub page: PageSpecView,
}

impl DeepView for ResolvedPageBinding {
    type V = ResolvedPageBindingView;

    open spec fn deep_view(&self) -> ResolvedPageBindingView {
        ResolvedPageBindingView {
            title: self.title@,
            placement: self.placement,
            route_suffix: self.route_suffix@,
            menu_name: self.menu_name@,
            parent: self.parent@,
            page: self.page.deep_view(),
        }
    }
}

/// An organization menu node (a menu group without a page of its own).
pub struct ResolvedOrganizationMenu {
    pub name: String,
    pub title: String,
    pub placement: MenuPlacement,
}

pub struct ResolvedOrganizationMenuView {
    pub name: Seq<char>,
    pub title: Seq<char>,
    pub placement: MenuPlacement,
}

impl DeepView for ResolvedOrganizationMenu {
    type V = ResolvedOrganizationMenuView;

    open spec fn deep_view(&self) -> ResolvedOrganizationMenuView {
        ResolvedOrganizationMenuView { name: self.name@, title: self.title@, placement: self.placement }
    }
}

/// A resolved top-level menu node.
pub enum ResolvedTopMenu {
    Page(ResolvedPageBinding),
    Organization { menu: ResolvedOrganizationMenu, children: Vec<ResolvedPageBinding> },
}

pub enum ResolvedTopMenuView {
    Page(ResolvedPageBindingView),
    Organization { menu: ResolvedOrganizationMenuView, children: Seq<ResolvedPageBindingView> },
}

impl DeepView for ResolvedTopMenu {
    type V = ResolvedTopMenuView;

    open spec fn deep_view(&self) -> ResolvedTopMenuView {
        match self {
            ResolvedTopMenu::Page(p) => ResolvedTopMenuView::Page(p.deep_view()),
            ResolvedTopMenu::Organization { menu, children } => ResolvedTopMenuView::Organization {
                menu: menu.deep_view(),
                children: children.deep_view(),
            },
        }
    }
}

// ---------------------------------------------------------------- key and shape checks
/// The error for an ill-formed key, if it is ill-formed.
pub open spec fn spec_validate_key(fi_name: Seq<char>, key: Seq<char>, is_menu_key: bool) -> Option<
    ManifestRenderErrorView,
> {
    if spec_valid_key(key) {
        None
    } else if is_menu_key {
        Some(ManifestRenderErrorView::InvalidMenuKey { fi_name, key })
    } else {
        Some(
            ManifestRenderErrorView::InvalidPageShape {
                fi_name,
                key,
                message: "page keys must be kebab-case route fragments"@,
            },
        )
    }
}

pub fn validate_key(fi_name: &str, key: &str, is_menu_key: bool) -> (r: Result<(), ManifestRenderError>)
    ensures
        match spec_validate_key(fi_name@, key@, is_menu_key) {
            None => r is Ok,
            Some(e) => r matches Err(x) && x.deep_view() == e,
        },
{
    if is_valid_key(key) {
        Ok(())
    } else if is_menu_key {
        Err(
            ManifestRenderError::InvalidMenuKey {
                fi_name: String::from_str(fi_name),
                key: String::from_str(key),
            },
        )
    } else {
        Err(
            ManifestRenderError::InvalidPageShape {
                fi_name: String::from_str(fi_name),
                key: String::from_str(key),
                message: String::from_str("page keys must be kebab-case route fragments"),
            },
        )
    }
}

/// The error for a page whose configuration does not match its type, if it does not.
pub open spec fn spec_validate_page_shape(fi_name: Seq<char>, page: PageSpecView) -> Option<
    ManifestRenderErrorView,
> {
    let key = page.key;
    match page.type_ {
        PageType::Iframe => if page.iframe is None {
            Some(
                ManifestRenderErrorView::InvalidPageShape {
                    fi_name,
                    key,
                    message: "type=iframe requires iframe config"@,
                },
            )
        } else if page.crd_table is Some {
            Some(
                ManifestRenderErrorView::InvalidPageShape {
                    fi_name,
                    key,
                    message: "type=iframe cannot define crdTable config"@,
                },
            )
        } else {
            None
        },
        PageType::CrdTable => match page.crd_table {
            None => Some(
                ManifestRenderErrorView::InvalidPageShape {
                    fi_name,
                    key,
                    message: "type=crdTable requires crdTable config"@,
                },
            ),
            Some(crd) => if page.iframe is Some {
                Some(
                    ManifestRenderErrorView::InvalidPageShape {
                        fi_name,
                        key,
                        message: "type=crdTable cannot define iframe config"@,
                    },
                )
            } else if crd.columns.len() == 0 {
                Some(ManifestRenderErrorView::MissingCrdColumns { fi_name, key })
            } else {
                None
            },
        },
    }
}

fn shape_error(fi_name: &str, key: &String, message: &str) -> (e: ManifestRenderError)
    ensures
        e.deep_view() == (ManifestRenderErrorView::InvalidPageShape {
            fi_name: fi_name@,
            key: key@,
            message: message@,
        }),
{
    ManifestRenderError::InvalidPageShape {
        fi_name: String::from_str(fi_name),
        key: key.clone(),
        message: String::from_str(message),
    }
}

pub fn validate_page_shape(fi_name: &str, page: &PageSpec) -> (r: Result<(), ManifestRenderError>)
    ensures
        match spec_validate_page_shape(fi_name@, page.deep_view()) {
            None => r is Ok,
            Some(e) => r matches Err(x) && x.deep_view() == e,
        },
{
    match page.type_ {
        PageType::Iframe => {
            if page.iframe.is_none() {
                return Err(shape_error(fi_name, &page.key, "type=iframe requires iframe config"));
            }
            if page.crd_table.is_some() {
                return Err(
                    shape_error(fi_name, &page.key, "type=iframe cannot define crdTable config"),
                );
            }
        },
        PageType::CrdTable => {
            let crd_table = match &page.crd_table {
                Some(c) => c,
                None => {
                    return Err(
                        shape_error(fi_name, &page.key, "type=crdTable requires crdTable config"),
                    );
                },
            };
            if page.iframe.is_some() {
                return Err(
                    shape_error(fi_name, &page.key, "type=crdTable cannot define iframe config"),
                );
            }
            if crd_table.columns.len() == 0 {
                return Err(
                    ManifestRenderError::MissingCrdColumns {
                        fi_name: String::from_str(fi_name),
                        key: page.key.clone(),
                    },
                );
            }
        },
    }
    Ok(())
}

// ---------------------------------------------------------------- key lists
/// Whether `v` holds `k`.
pub fn contains_key(v: &Vec<String>, k: &str) -> (b: bool)
    ensures
        b == v.deep_view().contains(k@),
{
    let mut i: usize = 0;
    while i < v.len()
        invariant
            0 <= i <= v@.len(),
            forall|j: int| 0 <= j < i ==> #[trigger] v@[j]@ != k@,
        decreases v@.len() - i,
    {
        if v[i] == String::from_str(k) {
            assert(v.deep_view()[i as int] == k@);
            return true;
        }
        i += 1;
    }
    assert forall|j: int| 0 <= j < v.deep_view().len() implies v.deep_view()[j] != k@ by {
        assert(v.deep_view()[j] == v@[j]@);
    }
    false
}

// ---------------------------------------------------------------- page configurations
/// Checks every page configuration in order from `i`: its key, its shape, and that its key
/// was not used by an earlier page. The first failure is reported.
pub open spec fn spec_check_pages(
    fi_name: Seq<char>,
    pages: Seq<PageSpecView>,
    i: int,
    seen: Seq<Seq<char>>,
) -> Option<ManifestRenderErrorView>
    decreases pages.len() - i,
{
    if i < 0 || i >= pages.len() {
        None
    } else {
        let p = pages[i];
        match spec_validate_key(fi_name, p.key, false) {
            Some(e) => Some(e),
            None => match spec_validate_page_shape(fi_name, p) {
                Some(e) => Some(e),
                None => if seen.contains(p.key) {
                    Some(ManifestRenderErrorView::DuplicatePageKey { fi_name, key: p.key })
                } else {
                    spec_check_pages(fi_name, pages, i + 1, seen.push(p.key))
                },
            },
        }
    }
}

/// The page keys of a list of pages.
pub open spec fn page_keys(pages: Seq<PageSpecView>) -> Seq<Seq<char>> {
    Seq::new(pages.len(), |i: int| pages[i].key)
}

/// Checks the page configurations; on success the pages, which have distinct keys, serve
/// as the lookup table of page configurations by key.
pub fn resolve_pages(pages: &Vec<PageSpec>, fi_name: &str) -> (r: Result<(), ManifestRenderError>)
    ensures
        match spec_check_pages(fi_name@, pages.deep_view(), 0, seq![]) {
            None => r is Ok,
            Some(e) => r matches Err(x) && x.deep_view() == e,
        },
{
    let ghost pv = pages.deep_view();
    let mut seen: Vec<String> = Vec::new();
    let mut i: usize = 0;
    assert(seen.deep_view() =~= page_keys(pv).subrange(0, 0));
    assert(seen.deep_view() =~= seq![]);
    while i < pages.len()
        invariant
            pv == pages.deep_view(),
            0 <= i <= pages@.len(),
            seen.deep_view() =~= page_keys(pv).subrange(0, i as int),
            spec_check_pages(fi_name@, pv, 0, seq![]) == spec_check_pages(
                fi_name@,
                pv,
                i as int,
                seen.deep_view(),
            ),
        decreases pages@.len() - i,
    {
        let page = &pages[i];
        assert(page.deep_view() == pv[i as int]);
        validate_key(fi_name, page.key.as_str(), false)?;
        validate_page_shape(fi_name, page)?;
        if contains_key(&seen, page.key.as_str()) {
            return Err(
                ManifestRenderError::DuplicatePageKey {
                    fi_name: String::from_str(fi_name),
                    key: page.key.clone(),
                },
            );
        }
        let ghost prev = seen.deep_view();
        seen.push(page.key.clone());
        assert(seen.deep_view() =~= prev.push(pv[i as int].key));
        assert(page_keys(pv).subrange(0, i + 1) =~= page_keys(pv).subrange(0, i as int).push(pv[i as int].key));
        i += 1;
    }
    Ok(())
}

/// The first page configuration with key `key`.
pub open spec fn spec_find_page(pages: Seq<PageSpecView>, key: Seq<char>) -> Option<PageSpecView>
    decreases pages.len(),
{
    if pages.len() == 0 {
        None
    } else if pages[0].key == key {
        Some(pages[0])
    } else {
        spec_find_page(pages.drop_first(), key)
    }
}

proof fn lemma_find_page_prefix(pages: Seq<PageSpecView>, i: int, key: Seq<char>)
    requires
        0 <= i <= pages.len(),
        forall|j: int| 0 <= j < i ==> pages[j].key != key,
    ensures
        spec_find_page(pages, key) == spec_find_page(pages.subrange(i, pages.len() as int), key),
    decreases i,
{
    if i == 0 {
        assert(pages.subrange(0, pages.len() as int) =~= pages);
    } else {
        let t = pages.drop_first();
        assert forall|j: int| 0 <= j < i - 1 implies t[j].key != key by {
            assert(t[j] == pages[j + 1]);
        }
        lemma_find_page_prefix(t, i - 1, key);
        assert(t.subrange(i - 1, t.len() as int) =~= pages.subrange(i, pages.len() as int));
    }
}

/// Index of the first page with key `key`.
pub fn find_page(pages: &Vec<PageSpec>, key: &str) -> (r: Option<usize>)
    ensures
        match r {
            Some(i) => i < pages@.len() && spec_find_page(pages.deep_view(), key@) == Some(
                pages@[i as int].deep_view(),
            ),
            None => spec_find_page(pages.deep_view(), key@) is None,
        },
{
    let ghost pv = pages.deep_view();
    let mut i: usize = 0;
    while i < pages.len()
        invariant
            pv == pages.deep_view(),
            0 <= i <= pages@.len(),
            forall|j: int| 0 <= j < i ==> #[trigger] pv[j].key != key@,
        decreases pages@.len() - i,
    {
        assert(pv[i as int] == pages@[i as int].deep_view());
        if pages[i].key == String::from_str(key) {
            proof {
                lemma_find_page_prefix(pv, i as int, key@);
            }
            return Some(i);
        }
        i += 1;
    }
    proof {
        lemma_find_page_prefix(pv, pv.len() as int, key@);
    }
    None
}

/// Binds a page-type menu key to its page configuration: the key must not be bound already
/// and a page with that key must exist.
pub open spec fn spec_bind_page(
    fi_name: Seq<char>,
    key: Seq<char>,
    pages: Seq<PageSpecView>,
    bound: Seq<Seq<char>>,
) -> Result<(PageSpecView, Seq<Seq<char>>), ManifestRenderErrorView> {
    if bound.contains(key) {
        Err(ManifestRenderErrorView::DuplicatePageKey { fi_name, key })
    } else {
        match spec_find_page(pages, key) {
            None => Err(ManifestRenderErrorView::MissingPageForMenuKey { fi_name, key }),
            Some(p) => Ok((p, bound.push(key))),
        }
    }
}

pub fn bind_page(fi_name: &str, key: &str, pages: &Vec<PageSpec>, bound: &mut Vec<String>) -> (r: Result<
    PageSpec,
    ManifestRenderError,
>)
    ensures
        match spec_bind_page(fi_name@, key@, pages.deep_view(), old(bound).deep_view()) {
            Ok((p, b)) => r matches Ok(x) && x.deep_view() == p && final(bound).deep_view() == b,
            Err(e) => r matches Err(x) && x.deep_view() == e,
        },
{
    if contains_key(bound, key) {
        return Err(
            ManifestRenderError::DuplicatePageKey {
                fi_name: String::from_str(fi_name),
                key: String::from_str(key),
            },
        );
    }
    bound.push(String::from_str(key));
    assert(bound.deep_view() =~= old(bound).deep_view().push(key@));
    match find_page(pages, key) {
        Some(i) => Ok(pages[i].duplicate()),
        None => Err(
            ManifestRenderError::MissingPageForMenuKey {
                fi_name: String::from_str(fi_name),
                key: String::from_str(key),
            },
        ),
    }
}

// ---------------------------------------------------------------- menus
/// Resolves the children of organization menu `menu` from child `j` on.
pub open spec fn spec_resolve_children(
    fi_name: Seq<char>,
    menu: PrimaryMenuSpecView,
    pages: Seq<PageSpecView>,
    j: int,
    bound: Seq<Seq<char>>,
    acc: Seq<ResolvedPageBindingView>,
) -> Result<(Seq<ResolvedPageBindingView>, Seq<Seq<char>>), ManifestRenderErrorView>
    decreases menu.children.len() - j,
{
    if j < 0 || j >= menu.children.len() {
        Ok((acc, bound))
    } else {
        let child = menu.children[j];
        match spec_validate_key(fi_name, child.key, true) {
            Some(e) => Err(e),
            None => match spec_bind_page(fi_name, child.key, pages, bound) {
                Err(e) => Err(e),
                Ok((page, bound2)) => {
                    let route_suffix = spec_route_suffix_for_child(menu.key, child.key);
                    let binding = ResolvedPageBindingView {
                        title: child.display_name,
                        placement: menu.placement,
                        route_suffix,
                        menu_name: spec_menu_name_for_suffix(fi_name, route_suffix),
                        parent: spec_nested_menu_parent(
                            menu.placement,
                            spec_menu_name_for_suffix(fi_name, menu.key),
                        ),
                        page,
                    };
                    spec_resolve_children(fi_name, menu, pages, j + 1, bound2, acc.push(binding))
                },
            },
        }
    }
}

/// Resolves one top-level menu, given the top-level keys and bound page keys seen so far.
pub open spec fn spec_resolve_one(
    fi_name: Seq<char>,
    menu: PrimaryMenuSpecView,
    pages: Seq<PageSpecView>,
    top: Seq<Seq<char>>,
    bound: Seq<Seq<char>>,
) -> Result<(ResolvedTopMenuView, Seq<Seq<char>>, Seq<Seq<char>>), ManifestRenderErrorView> {
    match spec_validate_key(fi_name, menu.key, true) {
        Some(e) => Err(e),
        None => if top.contains(menu.key) {
            Err(ManifestRenderErrorView::DuplicateTopLevelMenuKey { fi_name, key: menu.key })
        } else {
            let top2 = top.push(menu.key);
            let top_menu_name = spec_menu_name_for_suffix(fi_name, menu.key);
            match menu.type_ {
                MenuNodeType::Page => if menu.children.len() > 0 {
                    Err(
                        ManifestRenderErrorView::InvalidMenuShape {
                            fi_name,
                            key: menu.key,
                            message: "page menus cannot define children"@,
                        },
                    )
                } else {
                    match spec_bind_page(fi_name, menu.key, pages, bound) {
                        Err(e) => Err(e),
                        Ok((page, bound2)) => Ok(
                            (
                                ResolvedTopMenuView::Page(
                                    ResolvedPageBindingView {
                                        title: menu.display_name,
                                        placement: menu.placement,
                                        route_suffix: spec_route_suffix_for_menu(menu.key),
                                        menu_name: top_menu_name,
                                        parent: placement_str(menu.placement),
                                        page,
                                    },
                                ),
                                top2,
                                bound2,
                            ),
                        ),
                    }
                },
                MenuNodeType::Organization => if menu.children.len() == 0 {
                    Err(
                        ManifestRenderErrorView::InvalidMenuShape {
                            fi_name,
                            key: menu.key,
                            message: "organization menus must define at least one child"@,
                        },
                    )
                } else if spec_find_page(pages, menu.key) is Some {
                    Err(
                        ManifestRenderErrorView::InvalidMenuShape {
                            fi_name,
                            key: menu.key,
                            message: "organization menus cannot bind to page configs"@,
                        },
                    )
                } else {
                    match spec_resolve_children(fi_name, menu, pages, 0, bound, seq![]) {
                        Err(e) => Err(e),
                        Ok((children, bound2)) => Ok(
                            (
                                ResolvedTopMenuView::Organization {
                                    menu: ResolvedOrganizationMenuView {
                                        name: top_menu_name,
                                        title: menu.display_name,
                                        placement: menu.placement,
                                    },
                                    children,
                                },
                                top2,
                                bound2,
                            ),
                        ),
                    }
                },
            }
        },
    }
}

/// Resolves the top-level menus from menu `i` on.
pub open spec fn spec_resolve_menus(
    fi_name: Seq<char>,
    menus: Seq<PrimaryMenuSpecView>,
    pages: Seq<PageSpecView>,
    i: int,
    top: Seq<Seq<char>>,
    bound: Seq<Seq<char>>,
    acc: Seq<ResolvedTopMenuView>,
) -> Result<(Seq<ResolvedTopMenuView>, Seq<Seq<char>>), ManifestRenderErrorView>
    decreases menus.len() - i,
{
    if i < 0 || i >= menus.len() {
        Ok((acc, bound))
    } else {
        match spec_resolve_one(fi_name, menus[i], pages, top, bound) {
            Err(e) => Err(e),
            Ok((r, top2, bound2)) => spec_resolve_menus(
                fi_name,
                menus,
                pages,
                i + 1,
                top2,
                bound2,
                acc.push(r),
            ),
        }
    }
}

/// The first page, from page `i` on, whose key no menu bound.
pub open spec fn spec_first_orphan(pages: Seq<PageSpecView>, i: int, bound: Seq<Seq<char>>) -> Option<
    Seq<char>,
>
    decreases pages.len() - i,
{
    if i < 0 || i >= pages.len() {
        None
    } else if !bound.contains(pages[i].key) {
        Some(pages[i].key)
    } else {
        spec_first_orphan(pages, i + 1, bound)
    }
}

/// Resolution of a whole spec: pages are checked first, then menus are resolved in order,
/// then every page must have been bound by some menu.
pub open spec fn spec_resolve_spec(
    menus: Seq<PrimaryMenuSpecView>,
    pages: Seq<PageSpecView>,
    fi_name: Seq<char>,
) -> Result<Seq<ResolvedTopMenuView>, ManifestRenderErrorView> {
    match spec_check_pages(fi_name, pages, 0, seq![]) {
        Some(e) => Err(e),
        None => match spec_resolve_menus(fi_name, menus, pages, 0, seq![], seq![], seq![]) {
            Err(e) => Err(e),
            Ok((resolved, bound)) => match spec_first_orphan(pages, 0, bound) {
                Some(key) => Err(ManifestRenderErrorView::OrphanPageConfig { fi_name, key }),
                None => Ok(resolved),
            },
        },
    }
}

fn resolve_children(
    fi_name: &str,
    menu: &PrimaryMenuSpec,
    pages: &Vec<PageSpec>,
    top_menu_name: &String,
    bound: &mut Vec<String>,
) -> (r: Result<Vec<ResolvedPageBinding>, ManifestRenderError>)
    requires
        top_menu_name@ == spec_menu_name_for_suffix(fi_name@, menu.key@),
    ensures
        match spec_resolve_children(
            fi_name@,
            menu.deep_view(),
            pages.deep_view(),
            0,
            old(bound).deep_view(),
            seq![],
        ) {
            Ok((c, b)) => r matches Ok(x) && x.deep_view() == c && final(bound).deep_view() == b,
            Err(e) => r matches Err(x) && x.deep_view() == e,
        },
{
    let ghost mv = menu.deep_view();
    let ghost pv = pages.deep_view();
    let mut children: Vec<ResolvedPageBinding> = Vec::new();
    let mut j: usize = 0;
    assert(children.deep_view() =~= seq![]);
    while j < menu.children.len()
        invariant
            mv == menu.deep_view(),
            pv == pages.deep_view(),
            top_menu_name@ == spec_menu_name_for_suffix(fi_name@, menu.key@),
            0 <= j <= menu.children@.len(),
            spec_resolve_children(fi_name@, mv, pv, 0, old(bound).deep_view(), seq![])
                == spec_resolve_children(fi_name@, mv, pv, j as int, bound.deep_view(), children.deep_view()),
        decreases menu.children@.len() - j,
    {
        let child = &menu.children[j];
        assert(child.deep_view() == mv.children[j as int]);
        validate_key(fi_name, child.key.as_str(), true)?;
        let page = bind_page(fi_name, child.key.as_str(), pages, bound)?;
        let route_suffix = route_suffix_for_child(menu.key.as_str(), child.key.as_str());
        let menu_name = menu_name_for_suffix(fi_name, route_suffix.as_str());
        let parent = nested_menu_parent(menu.placement, top_menu_name.as_str());
        let binding = ResolvedPageBinding {
            title: child.display_name.clone(),
            placement: menu.placement,
            route_suffix,
            menu_name,
            parent,
            page,
        };
        let ghost prev = children.deep_view();
        children.push(binding);
        assert(children.deep_view() =~= prev.push(binding.deep_view()));
        j += 1;
    }
    Ok(children)
}

fn resolve_one(
    fi_name: &str,
    menu: &PrimaryMenuSpec,
    pages: &Vec<PageSpec>,
    top: &mut Vec<String>,
    bound: &mut Vec<String>,
) -> (r: Result<ResolvedTopMenu, ManifestRenderError>)
    ensures
        match spec_resolve_one(
            fi_name@,
            menu.deep_view(),
            pages.deep_view(),
            old(top).deep_view(),
            old(bound).deep_view(),
        ) {
            Ok((m, t, b)) => r matches Ok(x) && x.deep_view() == m && final(top).deep_view() == t
                && final(bound).deep_view() == b,
            Err(e) => r matches Err(x) && x.deep_view() == e,
        },
{
    validate_key(fi_name, menu.key.as_str(), true)?;
    if contains_key(top, menu.key.as_str()) {
        return Err(
            ManifestRenderError::DuplicateTopLevelMenuKey {
                fi_name: String::from_str(fi_name),
                key: menu.key.clone(),
            },
        );
    }
    top.push(menu.key.clone());
    assert(top.deep_view() =~= old(top).deep_view().push(menu.key@));
    let top_menu_name = menu_name_for_suffix(fi_name, menu.key.as_str());
    match menu.type_ {
        MenuNodeType::Page => {
            if menu.children.len() > 0 {
                return Err(
                    ManifestRenderError::InvalidMenuShape {
                        fi_name: String::from_str(fi_name),
                        key: menu.key.clone(),
                        message: String::from_str("page menus cannot define children"),
                    },
                );
            }
            let page = bind_page(fi_name, menu.key.as_str(), pages, bound)?;
            Ok(
                ResolvedTopMenu::Page(
                    ResolvedPageBinding {
                        title: menu.display_name.clone(),
                        placement: menu.placement,
                        route_suffix: route_suffix_for_menu(menu.key.as_str()),
                        menu_name: top_menu_name,
                        parent: String::from_str(menu.placement.as_str()),
                        page,
                    },
                ),
            )
        },
        MenuNodeType::Organization => {
            if menu.children.len() == 0 {
                return Err(
                    ManifestRenderError::InvalidMenuShape {
                        fi_name: String::from_str(fi_name),
                        key: menu.key.clone(),
                        message: String::from_str(
                            "organization menus must define at least one child",
                        ),
                    },
                );
            }
            if find_page(pages, menu.key.as_str()).is_some() {
                return Err(
                    ManifestRenderError::InvalidMenuShape {
                        fi_name: String::from_str(fi_name),
                        key: menu.key.clone(),
                        message: String::from_str("organization menus cannot bind to page configs"),
                    },
                );
            }
            let children = resolve_children(fi_name, menu, pages, &top_menu_name, bound)?;
            Ok(
                ResolvedTopMenu::Organization {
                    menu: ResolvedOrganizationMenu {
                        name: top_menu_name,
                        title: menu.display_name.clone(),
                        placement: menu.placement,
                    },
                    children,
                },
            )
        },
    }
}

/// Validates the menus and pages of a spec and binds every page-type menu node to its page.
pub fn resolve_spec(
    menus: &Vec<PrimaryMenuSpec>,
    pages: &Vec<PageSpec>,
    fi_name: &str,
) -> (r: Result<Vec<ResolvedTopMenu>, ManifestRenderError>)
    ensures
        match spec_resolve_spec(menus.deep_view(), pages.deep_view(), fi_name@) {
            Ok(res) => r matches Ok(x) && x.deep_view() == res,
            Err(e) => r matches Err(x) && x.deep_view() == e,
        },
{
    let ghost mv = menus.deep_view();
    let ghost pv = pages.deep_view();
    resolve_pages(pages, fi_name)?;
    let mut top: Vec<String> = Vec::new();
    let mut bound: Vec<String> = Vec::new();
    let mut resolved: Vec<ResolvedTopMenu> = Vec::new();
    assert(top.deep_view() =~= seq![]);
    assert(bound.deep_view() =~= seq![]);
    assert(resolved.deep_view() =~= seq![]);
    let mut i: usize = 0;
    while i < menus.len()
        invariant
            mv == menus.deep_view(),
            pv == pages.deep_view(),
            spec_check_pages(fi_name@, pv, 0, seq![]) is None,
            0 <= i <= menus@.len(),
            spec_resolve_menus(fi_name@, mv, pv, 0, seq![], seq![], seq![]) == spec_resolve_menus(
                fi_name@,
                mv,
                pv,
                i as int,
                top.deep_view(),
                bound.deep_view(),
                resolved.deep_view(),
            ),
        decreases menus@.len() - i,
    {
        assert(menus@[i as int].deep_view() == mv[i as int]);
        let r = resolve_one(fi_name, &menus[i], pages, &mut top, &mut bound)?;
        let ghost prev = resolved.deep_view();
        resolved.push(r);
        assert(resolved.deep_view() =~= prev.push(r.deep_view()));
        i += 1;
    }
    let ghost bv = bound.deep_view();
    let mut k: usize = 0;
    while k < pages.len()
        invariant
            pv == pages.deep_view(),
            mv == menus.deep_view(),
            bv == bound.deep_view(),
            spec_check_pages(fi_name@, pv, 0, seq![]) is None,
            spec_resolve_menus(fi_name@, mv, pv, 0, seq![], seq![], seq![]) == Ok::<_, ManifestRenderErrorView>((resolved.deep_view(), bv)),
            0 <= k <= pages@.len(),
            spec_first_orphan(pv, 0, bv) == spec_first_orphan(pv, k as int, bv),
        decreases pages@.len() - k,
    {
        assert(pages@[k as int].deep_view() == pv[k as int]);
        if !contains_key(&bound, pages[k].key.as_str()) {
            return Err(
                ManifestRenderError::OrphanPageConfig {
                    fi_name: String::from_str(fi_name),
                    key: pages[k].key.clone(),
                },
            );
        }
        k += 1;
    }
    Ok(resolved)
}

} // verus!
