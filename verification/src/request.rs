//! From the settings of a call to its request: the check of the additional
//! parameters, the query, and the address with the path values put in.

use vstd::prelude::*;
use vstd::utf8::encode_utf8;
use crate::client::{Error, Method};
use crate::params::{
    distinct_names, find, first_index, has_name, lemma_first_index, lemma_first_index_at,
    pairs_text, value_of, without, without_all, Pairs, Params,
};
use crate::text::{replace_text, replaced, same_text};
use crate::web::{escape_path_value, percent_encoded};

verus! {

/// What is fixed for one method of a service.
#[derive(Debug)]
pub struct Route {
    /// The dotted name of the method.
    pub id: &'static str,
    pub method: Method,
    /// The path below the base URL, with a marker for each path value.
    pub path: &'static str,
    /// The names that the call sets itself, in the order in which a clash with
    /// them is looked for.
    pub reserved: Vec<&'static str>,
    /// Each marker of the path with the name of the parameter that fills it.
    pub markers: Vec<(&'static str, &'static str)>,
    /// The names that go into the path and so leave the query.
    pub dropped: Vec<&'static str>,
    /// Whether the method can hand out the data itself in place of a record
    /// of it. A caller asks for that with the additional parameter `alt`.
    pub serves_media: bool,
}

/// The model of a route.
pub struct RouteView {
    pub id: Seq<char>,
    pub method: Method,
    pub path: Seq<char>,
    pub reserved: Seq<Seq<char>>,
    pub markers: Pairs,
    pub dropped: Seq<Seq<char>>,
    pub serves_media: bool,
}

/// The texts of a list of static names.
pub open spec fn names_text(v: Seq<&'static str>) -> Seq<Seq<char>> {
    Seq::new(v.len(), |i: int| v[i]@)
}

/// The texts of a list of markers and names.
pub open spec fn markers_text(v: Seq<(&'static str, &'static str)>) -> Pairs {
    Seq::new(v.len(), |i: int| (v[i].0@, v[i].1@))
}

impl View for Route {
    type V = RouteView;

    open spec fn view(&self) -> RouteView {
        RouteView {
            id: self.id@,
            method: self.method,
            path: self.path@,
            reserved: names_text(self.reserved@),
            markers: markers_text(self.markers@),
            dropped: names_text(self.dropped@),
            serves_media: self.serves_media,
        }
    }
}

/// The index of the first reserved name that the additional parameters hold,
/// or the number of reserved names where they hold none.
pub open spec fn first_clash(reserved: Seq<Seq<char>>, extra: Pairs) -> int
    decreases reserved.len(),
{
    if reserved.len() == 0 {
        0
    } else if has_name(extra, reserved[0]) {
        0
    } else {
        1 + first_clash(reserved.drop_first(), extra)
    }
}

/// All parameters of a call: those that it sets itself, the additional ones,
/// and `alt=json`. Only where the method serves media and one of the first
/// is called `alt` already does that one stand.
pub open spec fn all_params(named: Pairs, extra: Pairs, serves_media: bool) -> Pairs {
    let given = named + extra;
    if serves_media && has_name(given, "alt"@) {
        given
    } else {
        given.push(("alt"@, "json"@))
    }
}

/// Whether the body of the answer is to be decoded: it is unless the method
/// serves media and a parameter asks for another format than JSON.
pub open spec fn decodes(named: Pairs, extra: Pairs, serves_media: bool) -> bool {
    let given = named + extra;
    serves_media && has_name(given, "alt"@) ==> value_of(given, "alt"@) == "json"@
}

/// Whether a marker asks for its value to be escaped: its second character
/// is a plus sign.
pub open spec fn escapes(marker: Seq<char>) -> bool {
    marker.len() >= 2 && marker[1] == '+'
}

/// What takes the place of `marker`: the value of the parameter `name`,
/// escaped where the marker asks for it.
pub open spec fn substitute(params: Pairs, marker: Seq<char>, name: Seq<char>) -> Seq<char> {
    if escapes(marker) {
        percent_encoded(encode_utf8(value_of(params, name)))
    } else {
        value_of(params, name)
    }
}

/// `address` after each marker in turn gave way to its value.
pub open spec fn expanded(address: Seq<char>, params: Pairs, markers: Pairs) -> Seq<char>
    decreases markers.len(),
{
    if markers.len() == 0 {
        address
    } else {
        expanded(
            replaced(address, markers[0].0, substitute(params, markers[0].0, markers[0].1)),
            params,
            markers.drop_first(),
        )
    }
}

/// The address and the query of a call, before the two are made one URL.
#[derive(Debug)]
pub struct Draft {
    /// The base URL and the path, with the path values in place.
    pub address: String,
    /// The parameters that stay in the query.
    pub query: Vec<(String, String)>,
    /// Whether the body of the answer is to be decoded.
    pub decode: bool,
}

/// What `draft` owes for a route, a base URL, the parameters that the call
/// sets itself and the additional ones.
pub open spec fn drafted(
    r: Result<Draft, Error>,
    route: RouteView,
    base_url: Seq<char>,
    named: Pairs,
    extra: Pairs,
) -> bool {
    let k = first_clash(route.reserved, extra);
    if k < route.reserved.len() {
        r matches Err(e) && e.is_clash_on(route.reserved[k])
    } else {
        let params = all_params(named, extra, route.serves_media);
        &&& r matches Ok(d)
        &&& d.address@ == expanded(base_url + route.path, params, route.markers)
        &&& pairs_text(d.query@) == without_all(params, route.dropped)
        &&& d.decode == decodes(named, extra, route.serves_media)
    }
}

/// The first clash is the least index of a reserved name that the additional
/// parameters hold.
pub proof fn lemma_first_clash(reserved: Seq<Seq<char>>, extra: Pairs)
    ensures
        0 <= first_clash(reserved, extra) <= reserved.len(),
        first_clash(reserved, extra) < reserved.len() ==> has_name(
            extra,
            reserved[first_clash(reserved, extra)],
        ),
        forall|j: int|
            0 <= j < first_clash(reserved, extra) ==> !has_name(extra, #[trigger] reserved[j]),
    decreases reserved.len(),
{
    if reserved.len() > 0 && !has_name(extra, reserved[0]) {
        let rest = reserved.drop_first();
        lemma_first_clash(rest, extra);
        assert forall|j: int| 0 < j < reserved.len() implies reserved[j] == rest[j - 1] by {}
    }
}

/// An index that clashes, with none before it that does, is the first clash.
pub proof fn lemma_first_clash_at(reserved: Seq<Seq<char>>, extra: Pairs, i: int)
    requires
        0 <= i <= reserved.len(),
        i < reserved.len() ==> has_name(extra, reserved[i]),
        forall|j: int| 0 <= j < i ==> !has_name(extra, #[trigger] reserved[j]),
    ensures
        first_clash(reserved, extra) == i,
{
    lemma_first_clash(reserved, extra);
}

/// The names of a parameter list.
pub open spec fn names_of(q: Pairs) -> Seq<Seq<char>> {
    Seq::new(q.len(), |i: int| q[i].0)
}

/// A call's own values are found before anything that follows them: where
/// the leading parameters have distinct names, each of these names leads to
/// its own parameter, whatever the rest of the list holds.
pub proof fn lemma_own_values_come_first(heads: Pairs, tail: Pairs, i: int)
    requires
        distinct_names(heads),
        0 <= i < heads.len(),
    ensures
        first_index(heads + tail, heads[i].0) == i,
        value_of(heads + tail, heads[i].0) == heads[i].1,
{
    lemma_first_index_at(heads + tail, heads[i].0, i);
}

/// A name that none of the leading parameters has is looked for behind them.
pub proof fn lemma_other_names_come_behind(heads: Pairs, tail: Pairs, name: Seq<char>)
    requires
        !has_name(heads, name),
    ensures
        has_name(heads + tail, name) == has_name(tail, name),
        first_index(heads + tail, name) == heads.len() + first_index(tail, name),
        value_of(heads + tail, name) == value_of(tail, name),
{
    lemma_first_index(tail, name);
    lemma_first_index_at(heads + tail, name, heads.len() + first_index(tail, name));
    lemma_first_index(heads + tail, name);
}

/// The path values leave the query and nothing else does: where the leading
/// parameters have distinct names, and these names are dropped from the last
/// to the first, what stays is what follows the leading parameters.
pub proof fn lemma_path_values_leave(heads: Pairs, tail: Pairs, dropped: Seq<Seq<char>>)
    requires
        distinct_names(heads),
        dropped == names_of(heads).reverse(),
    ensures
        without_all(heads + tail, dropped) == tail,
    decreases heads.len(),
{
    if heads.len() > 0 {
        let fewer = heads.drop_last();
        lemma_own_values_come_first(heads, tail, heads.len() - 1);
        assert(without(heads + tail, dropped[0]) =~= fewer + tail);
        assert(dropped.drop_first() =~= names_of(fewer).reverse());
        lemma_path_values_leave(fewer, tail, dropped.drop_first());
    }
}

/// Looks for the first reserved name among the additional parameters.
fn clash_in(reserved: &Vec<&'static str>, extra: &Params) -> (r: Option<usize>)
    ensures
        match r {
            Some(k) => k < reserved.len() && k == first_clash(names_text(reserved@), extra@),
            None => first_clash(names_text(reserved@), extra@) == reserved.len(),
        },
{
    let ghost names = names_text(reserved@);
    let mut i: usize = 0;
    while i < reserved.len()
        invariant
            i <= reserved.len(),
            names == names_text(reserved@),
            forall|j: int| 0 <= j < i ==> !has_name(extra@, #[trigger] names[j]),
        decreases reserved.len() - i,
    {
        if extra.contains_key(reserved[i]) {
            proof {
                lemma_first_clash_at(names, extra@, i as int);
            }
            return Some(i);
        }
        i += 1;
    }
    proof {
        lemma_first_clash_at(names, extra@, i as int);
    }
    None
}

/// Puts the additional parameters behind those that the call sets itself,
/// and `alt=json` behind both. Where the method serves media, an `alt` among
/// them stands, and says whether the body of the answer is decoded.
fn gather(named: Vec<(String, String)>, extra: &Params, serves_media: bool) -> (r: (
    Vec<(String, String)>,
    bool,
))
    ensures
        pairs_text(r.0@) == all_params(pairs_text(named@), extra@, serves_media),
        r.1 == decodes(pairs_text(named@), extra@, serves_media),
{
    let ghost first = pairs_text(named@);
    let more = extra.pairs();
    let mut params = named;
    let mut i: usize = 0;
    while i < more.len()
        invariant
            i <= more.len(),
            pairs_text(more@) == extra@,
            pairs_text(params@) == first + extra@.subrange(0, i as int),
        decreases more.len() - i,
    {
        let ghost before = pairs_text(params@);
        params.push((more[i].0.clone(), more[i].1.clone()));
        assert(pairs_text(params@) =~= before.push(extra@[i as int]));
        i += 1;
    }
    assert(extra@.subrange(0, i as int) =~= extra@);
    let ghost given = pairs_text(params@);
    proof {
        lemma_first_index(given, "alt"@);
    }
    let found = if serves_media {
        find(&params, "alt")
    } else {
        None
    };
    match found {
        Some(k) => {
            let decode = same_text(params[k].1.as_str(), "json");
            (params, decode)
        },
        None => {
            params.push((String::from_str("alt"), String::from_str("json")));
            (params, true)
        },
    }
}

/// Puts the value of each marker's parameter in the marker's place.
fn expand(address: String, params: &Vec<(String, String)>, markers: &Vec<
    (&'static str, &'static str),
>) -> (r: String)
    ensures
        r@ == expanded(address@, pairs_text(params@), markers_text(markers@)),
{
    let ghost all = markers_text(markers@);
    let ghost start = address@;
    let mut address = address;
    let mut i: usize = 0;
    assert(all.skip(0) =~= all);
    while i < markers.len()
        invariant
            i <= markers.len(),
            all == markers_text(markers@),
            expanded(start, pairs_text(params@), all) == expanded(
                address@,
                pairs_text(params@),
                all.skip(i as int),
            ),
        decreases markers.len() - i,
    {
        let (marker, name) = markers[i];
        let ghost q = pairs_text(params@);
        proof {
            lemma_first_index(q, name@);
            assert(all.skip(i as int).drop_first() =~= all.skip(i + 1));
        }
        let mut value = match find(params, name) {
            Some(k) => params[k].1.clone(),
            None => String::new(),
        };
        if marker.unicode_len() >= 2 && marker.get_char(1) == '+' {
            value = escape_path_value(value.as_str());
        }
        if !marker.is_empty() {
            address = replace_text(address.as_str(), marker, value.as_str());
        }
        i += 1;
    }
    address
}

/// Takes the first parameter of each name out of the list.
fn prune(params: Vec<(String, String)>, dropped: &Vec<&'static str>) -> (r: Vec<(String, String)>)
    ensures
        pairs_text(r@) == without_all(pairs_text(params@), names_text(dropped@)),
{
    let ghost names = names_text(dropped@);
    let ghost start = pairs_text(params@);
    let mut params = params;
    let mut i: usize = 0;
    assert(names.skip(0) =~= names);
    while i < dropped.len()
        invariant
            i <= dropped.len(),
            names == names_text(dropped@),
            without_all(start, names) == without_all(pairs_text(params@), names.skip(i as int)),
        decreases dropped.len() - i,
    {
        let ghost q = pairs_text(params@);
        proof {
            lemma_first_index(q, dropped[i as int]@);
            assert(names.skip(i as int).drop_first() =~= names.skip(i + 1));
        }
        match find(&params, dropped[i]) {
            Some(k) => {
                params.remove(k);
                assert(pairs_text(params@) =~= q.remove(k as int));
            },
            None => {},
        }
        i += 1;
    }
    params
}

/// Checks the additional parameters against the names that the call sets
/// itself, gathers all parameters, fills the markers of the path and takes the
/// path values out of the query.
pub fn draft(route: &Route, base_url: &str, named: Vec<(String, String)>, extra: &Params) -> (r:
    Result<Draft, Error>)
    ensures
        drafted(r, route@, base_url@, pairs_text(named@), extra@),
{
    match clash_in(&route.reserved, extra) {
        Some(k) => {
            return Err(Error::FieldClash(route.reserved[k]));
        },
        None => {},
    }
    let (params, decode) = gather(named, extra, route.serves_media);
    let address = expand(String::from_str(base_url).concat(route.path), &params, &route.markers);
    let query = prune(params, &route.dropped);
    Ok(Draft { address, query, decode })
}

} // verus!
