//! Route suffixes, menu names and page ids derived from menu keys.
use crate::api::{placement_route_prefix, placement_str, MenuPlacement};
use crate::text::{concat3, concat_str, replace_char, replace_slash_with_underscore};
use vstd::prelude::*;

verus! {

/// Route suffix of a top-level page menu: its key.
pub open spec fn spec_route_suffix_for_menu(key: Seq<char>) -> Seq<char> {
    key
}

/// Route suffix of a page under an organization menu: `<parent>/<child>`.
pub open spec fn spec_route_suffix_for_child(parent_key: Seq<char>, child_key: Seq<char>) -> Seq<
    char,
> {
    parent_key + "/"@ + child_key
}

/// Menu name of a route suffix: `frontendintegrations/<fi>/<suffix>`.
pub open spec fn spec_menu_name_for_suffix(fi_name: Seq<char>, suffix: Seq<char>) -> Seq<char> {
    "frontendintegrations/"@ + fi_name + "/"@ + suffix
}

/// Parent of a menu nested under an organization menu: `<placement>.<menu name>`.
pub open spec fn spec_nested_menu_parent(placement: MenuPlacement, menu_name: Seq<char>) -> Seq<
    char,
> {
    placement_str(placement) + "."@ + menu_name
}

/// Page id: `<fi>-<placement>-<suffix with '/' replaced by '_'>`.
pub open spec fn spec_page_id_for_suffix(
    fi_name: Seq<char>,
    placement: MenuPlacement,
    suffix: Seq<char>,
) -> Seq<char> {
    fi_name + "-"@ + placement_str(placement) + "-"@ + replace_char(suffix, '/', '_')
}

/// Route tail shared by all placements: `/frontendintegrations/<fi>/<suffix>`.
pub open spec fn spec_route_tail(fi_name: Seq<char>, suffix: Seq<char>) -> Seq<char> {
    "/frontendintegrations/"@ + fi_name + "/"@ + suffix
}

/// Full route path of a page.
pub open spec fn spec_route_path(fi_name: Seq<char>, placement: MenuPlacement, suffix: Seq<char>) -> Seq<
    char,
> {
    placement_route_prefix(placement) + spec_route_tail(fi_name, suffix)
}

pub fn route_suffix_for_menu(key: &str) -> (r: String)
    ensures
        r@ == spec_route_suffix_for_menu(key@),
{
    String::from_str(key)
}

pub fn route_suffix_for_child(parent_key: &str, child_key: &str) -> (r: String)
    ensures
        r@ == spec_route_suffix_for_child(parent_key@, child_key@),
{
    concat3(parent_key, "/", child_key)
}

pub fn menu_name_for_suffix(fi_name: &str, suffix: &str) -> (r: String)
    ensures
        r@ == spec_menu_name_for_suffix(fi_name@, suffix@),
{
    let mut out = concat3("frontendintegrations/", fi_name, "/");
    out.append(suffix);
    out
}

pub fn nested_menu_parent(placement: MenuPlacement, menu_name: &str) -> (r: String)
    ensures
        r@ == spec_nested_menu_parent(placement, menu_name@),
{
    concat3(placement.as_str(), ".", menu_name)
}

pub fn page_id_for_suffix(fi_name: &str, placement: MenuPlacement, suffix: &str) -> (r: String)
    ensures
        r@ == spec_page_id_for_suffix(fi_name@, placement, suffix@),
{
    let mut out = concat3(fi_name, "-", placement.as_str());
    out.append("-");
    let slug = replace_slash_with_underscore(suffix);
    out.append(slug.as_str());
    out
}

pub fn route_tail(fi_name: &str, suffix: &str) -> (r: String)
    ensures
        r@ == spec_route_tail(fi_name@, suffix@),
{
    let mut out = concat3("/frontendintegrations/", fi_name, "/");
    out.append(suffix);
    out
}

pub fn route_path(fi_name: &str, placement: MenuPlacement, suffix: &str) -> (r: String)
    ensures
        r@ == spec_route_path(fi_name@, placement, suffix@),
{
    let tail = route_tail(fi_name, suffix);
    concat_str(placement.route_prefix(), tail.as_str())
}

/// Page ids tell route suffixes apart: for one integration and placement, two different
/// suffixes without `_` (key characters and `/`) get different page ids.
pub proof fn law_page_ids_distinguish_suffixes(
    fi_name: Seq<char>,
    placement: MenuPlacement,
    a: Seq<char>,
    b: Seq<char>,
)
    requires
        a != b,
        forall|i: int| 0 <= i < a.len() ==> a[i] != '_',
        forall|i: int| 0 <= i < b.len() ==> b[i] != '_',
    ensures
        spec_page_id_for_suffix(fi_name, placement, a) != spec_page_id_for_suffix(fi_name, placement, b),
{
    let head = fi_name + "-"@ + placement_str(placement) + "-"@;
    let ra = replace_char(a, '/', '_');
    let rb = replace_char(b, '/', '_');
    if spec_page_id_for_suffix(fi_name, placement, a) == spec_page_id_for_suffix(fi_name, placement, b) {
        assert((head + ra).subrange(head.len() as int, (head + ra).len() as int) =~= ra);
        assert((head + rb).subrange(head.len() as int, (head + rb).len() as int) =~= rb);
        assert(ra == rb);
        assert(a.len() == b.len());
        assert forall|i: int| 0 <= i < a.len() implies a[i] == b[i] by {
            assert(ra[i] == rb[i]);
        }
        assert(a =~= b);
    }
}

} // verus!
