//! Search over the catalog: namespaces by name, routes by keyword.
//!
//! A text matches a query when the lowercase form of the query occurs in
//! the lowercase form of the text. Results come in catalog order.

use vstd::prelude::*;
use vstd::string::*;
use crate::model::{Keyed, NamespaceResp, RouteDetails, RoutesMap, distinct_keys, keys_of};
use crate::rank::{
    Rank, indices, is_stable_order, lemma_ranking_is_stable, lemma_ranking_prefers_closer, rank_models,
    rank_of, rank_order, ranked_keys, ranking, ranks_of,
};
use crate::text::{
    chars_of, clone_text, contains, decimal, decimal_string, is_prefix, is_substring, join, joined,
    lowercase, optional_str, optional_text, to_lowercase, views,
};

verus! {

/// Whether `text` matches the query whose lowercase form is `q`.
pub open spec fn text_matches(q: Seq<char>, text: Seq<char>) -> bool {
    is_substring(q, lowercase(text))
}

/// Whether a route matches: by its key, its name, its description or its
/// example, any one of them.
pub open spec fn route_matches(q: Seq<char>, key: Seq<char>, details: RouteDetails) -> bool {
    ||| text_matches(q, key)
    ||| text_matches(q, details.name@)
    ||| (details.description matches Some(t) && text_matches(q, t@))
    ||| (details.example matches Some(t) && text_matches(q, t@))
}

/// One route that a search found.
#[derive(Debug, Clone)]
pub struct RouteHit {
    pub namespace: String,
    pub route_key: String,
    pub name: String,
    pub description: Option<String>,
    pub example: Option<String>,
}

/// A found route, as a mathematical value.
pub struct RouteHitModel {
    pub namespace: Seq<char>,
    pub route_key: Seq<char>,
    pub name: Seq<char>,
    pub description: Option<Seq<char>>,
    pub example: Option<Seq<char>>,
}

impl View for RouteHit {
    type V = RouteHitModel;

    open spec fn view(&self) -> RouteHitModel {
        RouteHitModel {
            namespace: self.namespace@,
            route_key: self.route_key@,
            name: self.name@,
            description: optional_text(self.description),
            example: optional_text(self.example),
        }
    }
}

/// The hit that stands for a route of a namespace.
pub open spec fn hit_of(namespace: Seq<char>, key: Seq<char>, details: RouteDetails) -> RouteHitModel {
    RouteHitModel {
        namespace,
        route_key: key,
        name: details.name@,
        description: optional_text(details.description),
        example: optional_text(details.example),
    }
}

/// The views of a list of hits.
pub open spec fn hit_models(hits: Seq<RouteHit>) -> Seq<RouteHitModel> {
    hits.map_values(|h: RouteHit| h@)
}

/// All hits among the routes of one namespace, in order.
pub open spec fn hits_in_routes(
    namespace: Seq<char>,
    routes: Seq<(String, RouteDetails)>,
    q: Seq<char>,
) -> Seq<RouteHitModel>
    decreases routes.len(),
{
    if routes.len() == 0 {
        Seq::empty()
    } else {
        let before = hits_in_routes(namespace, routes.drop_last(), q);
        let (key, details) = routes.last();
        if route_matches(q, key@, details) {
            before.push(hit_of(namespace, key@, details))
        } else {
            before
        }
    }
}

/// All hits in one namespace; none where it has no routes.
pub open spec fn hits_in_namespace(namespace: Seq<char>, map: RoutesMap, q: Seq<char>) -> Seq<
    RouteHitModel,
> {
    match map.routes {
        Some(routes) => hits_in_routes(namespace, routes@, q),
        None => Seq::empty(),
    }
}

/// All hits in the catalog, namespace after namespace.
pub open spec fn hits_in_catalog(all: Seq<(String, RoutesMap)>, q: Seq<char>) -> Seq<RouteHitModel>
    decreases all.len(),
{
    if all.len() == 0 {
        Seq::empty()
    } else {
        hits_in_catalog(all.drop_last(), q) + hits_in_namespace(all.last().0@, all.last().1, q)
    }
}

/// The first `limit` elements of a sequence, or all of it where it is
/// shorter.
pub open spec fn first_n<T>(s: Seq<T>, limit: nat) -> Seq<T> {
    if limit < s.len() {
        s.take(limit as int)
    } else {
        s
    }
}

/// Once a prefix holds `limit` elements, the first `limit` of the whole are
/// those of the prefix.
proof fn lemma_prefix_first_n<T>(part: Seq<T>, whole: Seq<T>, limit: nat)
    requires
        part.is_prefix_of(whole),
    ensures
        first_n(part, limit).len() >= limit ==> first_n(whole, limit) == first_n(part, limit),
{
    if first_n(part, limit).len() >= limit {
        assert(first_n(whole, limit) =~= first_n(part, limit));
    }
}

/// Hits found in a part of the routes stay, in place, when the rest of the
/// routes is searched too.
proof fn lemma_hits_grow(
    namespace: Seq<char>,
    routes: Seq<(String, RouteDetails)>,
    q: Seq<char>,
    n: int,
)
    requires
        0 <= n <= routes.len(),
    ensures
        hits_in_routes(namespace, routes.take(n), q).is_prefix_of(
            hits_in_routes(namespace, routes, q),
        ),
    decreases routes.len() - n,
{
    if n < routes.len() {
        assert(routes.take(n + 1).drop_last() =~= routes.take(n));
        lemma_hits_grow(namespace, routes, q, n + 1);
    } else {
        assert(routes.take(n) =~= routes);
    }
}

fn matches_text(q: &Vec<char>, text: &str) -> (r: bool)
    ensures
        r == text_matches(q@, text@),
{
    let lower = to_lowercase(text);
    contains(&chars_of(lower.as_str()), q)
}

/// The characters of the lowercase form of a query.
fn query_chars(query: &str) -> (r: Vec<char>)
    ensures
        r@ == lowercase(query@),
{
    let lower = to_lowercase(query);
    chars_of(lower.as_str())
}

fn matches_route(q: &Vec<char>, key: &str, details: &RouteDetails) -> (r: bool)
    ensures
        r == route_matches(q@, key@, *details),
{
    if matches_text(q, key) {
        return true;
    }
    if matches_text(q, details.name.as_str()) {
        return true;
    }
    let in_description = match &details.description {
        Some(t) => matches_text(q, t.as_str()),
        None => false,
    };
    if in_description {
        return true;
    }
    match &details.example {
        Some(t) => matches_text(q, t.as_str()),
        None => false,
    }
}

fn make_hit(namespace: &str, key: &str, details: &RouteDetails) -> (r: RouteHit)
    ensures
        r@ == hit_of(namespace@, key@, *details),
{
    RouteHit {
        namespace: String::from_str(namespace),
        route_key: String::from_str(key),
        name: details.name.clone(),
        description: clone_text(&details.description),
        example: clone_text(&details.example),
    }
}

/// Adds to `hits` the hits among `routes`, in order, until `hits` holds
/// `limit` of them.
fn collect_hits(
    namespace: &str,
    routes: &Vec<(String, RouteDetails)>,
    q: &Vec<char>,
    limit: usize,
    hits: &mut Vec<RouteHit>,
)
    requires
        old(hits).len() <= limit,
    ensures
        final(hits).len() <= limit,
        hit_models(final(hits)@) == first_n(
            hit_models(old(hits)@) + hits_in_routes(namespace@, routes@, q@),
            limit as nat,
        ),
{
    let ghost before = hit_models(hits@);
    let mut i: usize = 0;
    assert(routes@.take(0) =~= Seq::empty());
    assert(before + hits_in_routes(namespace@, routes@.take(0), q@) =~= before);
    while i < routes.len()
        invariant
            i <= routes.len(),
            hits.len() <= limit,
            before == hit_models(old(hits)@),
            hit_models(hits@) == first_n(
                before + hits_in_routes(namespace@, routes@.take(i as int), q@),
                limit as nat,
            ),
        decreases routes.len() - i,
    {
        if hits.len() >= limit {
            proof {
                lemma_hits_grow(namespace@, routes@, q@, i as int);
                let part = before + hits_in_routes(namespace@, routes@.take(i as int), q@);
                let whole = before + hits_in_routes(namespace@, routes@, q@);
                let fewer = hits_in_routes(namespace@, routes@.take(i as int), q@);
                let more = hits_in_routes(namespace@, routes@, q@);
                assert(part.len() <= whole.len());
                assert forall|k: int| 0 <= k < part.len() implies part[k] == whole[k] by {
                    if k >= before.len() {
                        assert(fewer[k - before.len()] == more[k - before.len()]);
                    }
                }
                assert(part.is_prefix_of(whole));
                lemma_prefix_first_n(part, whole, limit as nat);
                assert(hit_models(hits@).len() == hits@.len());

            }
            return ;
        }
        let ghost found = hits_in_routes(namespace@, routes@.take(i as int), q@);
        proof {
            assert(routes@.take(i + 1).drop_last() =~= routes@.take(i as int));
            assert(routes@.take(i + 1).last() == routes@[i as int]);
        }
        let key = routes[i].0.as_str();
        let details = &routes[i].1;
        if matches_route(q, key, details) {
            let hit = make_hit(namespace, key, details);
            let ghost earlier = hits@;
            hits.push(hit);
            proof {
                assert(hit_models(hits@) =~= hit_models(earlier).push(hit@));
                assert(before + found.push(hit@) =~= (before + found).push(hit@));
            }
        }
        i += 1;
    }
    assert(routes@.take(routes.len() as int) =~= routes@);
}

/// Searches the routes of one namespace for `query` and gives the first
/// `limit` hits in order.
pub fn search_namespace_routes(namespace: &str, map: &RoutesMap, query: &str, limit: usize) -> (r:
    Vec<RouteHit>)
    ensures
        hit_models(r@) == first_n(
            hits_in_namespace(namespace@, *map, lowercase(query@)),
            limit as nat,
        ),
{
    let q = query_chars(query);
    let mut hits: Vec<RouteHit> = Vec::new();
    assert(hit_models(hits@) =~= Seq::empty());
    match &map.routes {
        Some(routes) => {
            collect_hits(namespace, routes.entries(), &q, limit, &mut hits);
            assert(Seq::<RouteHitModel>::empty() + hits_in_routes(namespace@, routes@, q@)
                =~= hits_in_routes(namespace@, routes@, q@));
        },
        None => {},
    }
    hits
}

/// Searches every namespace of the catalog for `query`, in catalog order,
/// and gives the first `limit` hits.
pub fn search_all_routes(all: &NamespaceResp, query: &str, limit: usize) -> (r: Vec<RouteHit>)
    ensures
        hit_models(r@) == first_n(hits_in_catalog(all@, lowercase(query@)), limit as nat),
{
    let q = query_chars(query);
    let mut hits: Vec<RouteHit> = Vec::new();
    assert(hit_models(hits@) =~= Seq::empty());
    assert(all@.take(0) =~= Seq::empty());
    let list = all.entries();
    let mut i: usize = 0;
    while i < list.len() && hits.len() < limit
        invariant
            list@ == all@,
            i <= list.len(),
            hits.len() <= limit,
            hit_models(hits@) == first_n(hits_in_catalog(all@.take(i as int), q@), limit as nat),
        decreases list.len() - i,
    {
        proof {
            assert(all@.take(i + 1).drop_last() =~= all@.take(i as int));
            assert(all@.take(i + 1).last() == all@[i as int]);
        }
        let ghost so_far = hits_in_catalog(all@.take(i as int), q@);
        match &list[i].1.routes {
            Some(routes) => {
                let ghost here = hits_in_routes(all@[i as int].0@, routes@, q@);
                collect_hits(list[i].0.as_str(), routes.entries(), &q, limit, &mut hits);
                assert(first_n(first_n(so_far, limit as nat) + here, limit as nat) =~= first_n(
                    so_far + here,
                    limit as nat,
                ));
            },
            None => {
                assert(so_far + Seq::<RouteHitModel>::empty() =~= so_far);
            },
        }
        i += 1;
    }
    proof {
        lemma_catalog_hits_grow(all@, q@, i as int);
        let part = hits_in_catalog(all@.take(i as int), q@);
        let whole = hits_in_catalog(all@, q@);
        if i < list.len() {
            assert(hit_models(hits@).len() == hits@.len());
            lemma_prefix_first_n(part, whole, limit as nat);
        } else {
            assert(all@.take(i as int) =~= all@);
        }
    }
    hits
}

/// Hits found in the first namespaces stay, in place, when the rest of the
/// catalog is searched too.
proof fn lemma_catalog_hits_grow(all: Seq<(String, RoutesMap)>, q: Seq<char>, n: int)
    requires
        0 <= n <= all.len(),
    ensures
        hits_in_catalog(all.take(n), q).is_prefix_of(hits_in_catalog(all, q)),
    decreases all.len() - n,
{
    if n < all.len() {
        assert(all.take(n + 1).drop_last() =~= all.take(n));
        lemma_catalog_hits_grow(all, q, n + 1);
    } else {
        assert(all.take(n) =~= all);
    }
}


/// The keys of a keyed list, in order.
pub fn keys<T>(list: &Keyed<T>) -> (r: Vec<String>)
    ensures
        views(r@) == keys_of(list@),
{
    let entries = list.entries();
    let mut out: Vec<String> = Vec::new();
    let mut i: usize = 0;
    while i < entries.len()
        invariant
            i <= entries.len(),
            out.len() == i,
            forall|j: int| 0 <= j < i ==> (#[trigger] out@[j])@ == entries@[j].0@,
        decreases entries.len() - i,
    {
        out.push(entries[i].0.clone());
        i += 1;
    }
    assert(views(out@) =~= keys_of(entries@));
    out
}

/// The keys that match the query whose lowercase form is `q`, in order.
pub open spec fn matching_keys(keys: Seq<Seq<char>>, q: Seq<char>) -> Seq<Seq<char>>
    decreases keys.len(),
{
    if keys.len() == 0 {
        Seq::empty()
    } else {
        let before = matching_keys(keys.drop_last(), q);
        if text_matches(q, keys.last()) {
            before.push(keys.last())
        } else {
            before
        }
    }
}

/// The names of the namespaces that match `query`, in catalog order.
pub fn matching_namespaces(all: &NamespaceResp, query: &str) -> (r: Vec<String>)
    ensures
        views(r@) == matching_keys(keys_of(all@), lowercase(query@)),
{
    let q = query_chars(query);
    let list = all.entries();
    let mut out: Vec<String> = Vec::new();
    let mut i: usize = 0;
    assert(keys_of(all@).take(0) =~= Seq::empty());
    assert(views(out@) =~= Seq::empty());
    while i < list.len()
        invariant
            list@ == all@,
            i <= list.len(),
            views(out@) == matching_keys(keys_of(all@).take(i as int), q@),
        decreases list.len() - i,
    {
        proof {
            assert(keys_of(all@).take(i + 1).drop_last() =~= keys_of(all@).take(i as int));
            assert(keys_of(all@).take(i + 1).last() == all@[i as int].0@);
        }
        if matches_text(&q, list[i].0.as_str()) {
            let ghost earlier = views(out@);
            out.push(list[i].0.clone());
            assert(views(out@) =~= earlier.push(all@[i as int].0@));
        }
        i += 1;
    }
    assert(keys_of(all@).take(list.len() as int) =~= keys_of(all@));
    out
}

/// The answer to a search for namespaces. Without a query: the number of
/// namespaces and all their names. With one: the matching names, or, where
/// none matches, a note of that and all names.
pub open spec fn namespaces_text(keys: Seq<Seq<char>>, query: Option<Seq<char>>) -> Seq<char> {
    match query {
        Some(q) => {
            let found = matching_keys(keys, lowercase(q));
            if found.len() == 0 {
                "No namespaces found matching '"@ + q + "'. Available namespaces: "@ + joined(
                    keys,
                    ", "@,
                )
            } else {
                "Namespaces matching '"@ + q + "':\n"@ + joined(found, "\n"@)
            }
        },
        None => "Available namespaces ("@ + decimal(keys.len()) + " total):\n"@ + joined(
            keys,
            ", "@,
        ),
    }
}

/// Answers a search for namespaces in words.
pub fn search_namespaces(all: &NamespaceResp, query: Option<&str>) -> (r: String)
    ensures
        r@ == namespaces_text(keys_of(all@), optional_str(query)),
{
    match query {
        Some(q) => {
            let found = matching_namespaces(all, q);
            if found.len() == 0 {
                let mut out = String::from_str("No namespaces found matching '");
                out.append(q);
                out.append("'. Available namespaces: ");
                let names = keys(all);
                out.append(join(&names, ", ").as_str());
                out
            } else {
                let mut out = String::from_str("Namespaces matching '");
                out.append(q);
                out.append("':\n");
                out.append(join(&found, "\n").as_str());
                out
            }
        },
        None => {
            let names = keys(all);
            let mut out = String::from_str("Available namespaces (");
            out.append(decimal_string(names.len() as u64).as_str());
            out.append(" total):\n");
            out.append(join(&names, ", ").as_str());
            out
        },
    }
}

/// The line that shows one hit: namespace, key and name, and the
/// description where there is one.
pub open spec fn hit_line(hit: RouteHitModel) -> Seq<char> {
    let head = "- "@ + hit.namespace + " "@ + hit.route_key + " — "@ + hit.name;
    match hit.description {
        Some(d) => if d.len() == 0 {
            head
        } else {
            head + " — "@ + d
        },
        None => head,
    }
}

/// The lines that show a list of hits.
pub open spec fn hit_lines(hits: Seq<RouteHitModel>) -> Seq<Seq<char>> {
    Seq::new(hits.len(), |i: int| hit_line(hits[i]))
}

/// The answer to a search for routes, in words: a headline with the number
/// of hits and the limit, then one line for each hit; or a note that
/// nothing matched.
pub open spec fn hits_text(hits: Seq<RouteHitModel>, query: Seq<char>, limit: nat) -> Seq<char> {
    if hits.len() == 0 {
        "No route found matching '"@ + query + "'."@
    } else {
        let headline = "Found "@ + decimal(hits.len()) + " routes (showing up to "@ + decimal(limit)
            + "):"@;
        joined(seq![headline] + hit_lines(hits), "\n"@)
    }
}

fn line_of(hit: &RouteHit) -> (r: String)
    ensures
        r@ == hit_line(hit@),
{
    let mut out = String::from_str("- ");
    out.append(hit.namespace.as_str());
    out.append(" ");
    out.append(hit.route_key.as_str());
    out.append(" — ");
    out.append(hit.name.as_str());
    match &hit.description {
        Some(d) => {
            if !d.as_str().is_empty() {
                out.append(" — ");
                out.append(d.as_str());
            }
        },
        None => {},
    }
    out
}

/// Shows the hits of a search in words.
pub fn render_hits(hits: &Vec<RouteHit>, query: &str, limit: usize) -> (r: String)
    ensures
        r@ == hits_text(hit_models(hits@), query@, limit as nat),
{
    if hits.len() == 0 {
        let mut out = String::from_str("No route found matching '");
        out.append(query);
        out.append("'.");
        return out;
    }
    let mut headline = String::from_str("Found ");
    headline.append(decimal_string(hits.len() as u64).as_str());
    headline.append(" routes (showing up to ");
    headline.append(decimal_string(limit as u64).as_str());
    headline.append("):");
    let mut lines: Vec<String> = Vec::new();
    lines.push(headline);
    let mut i: usize = 0;
    while i < hits.len()
        invariant
            i <= hits.len(),
            lines.len() == i + 1,
            lines@[0] == headline,
            forall|j: int| 1 <= j <= i ==> (#[trigger] lines@[j])@ == hit_line(hits@[j - 1]@),
        decreases hits.len() - i,
    {
        lines.push(line_of(&hits[i]));
        i += 1;
    }
    proof {
        let shown = seq![headline@] + hit_lines(hit_models(hits@));
        assert(views(lines@).len() == shown.len());
        assert forall|j: int| 0 <= j < shown.len() implies views(lines@)[j] == shown[j] by {
            if j >= 1 {
                assert(shown[j] == hit_lines(hit_models(hits@))[j - 1]);
                assert(hit_models(hits@)[j - 1] == hits@[j - 1]@);
            }
        }
        assert(views(lines@) =~= shown);
    }
    join(&lines, "\n")
}

/// The route keys of a namespace closest to `partial`: all keys in ranked
/// order, cut to `limit`.
pub open spec fn suggested(
    routes: Seq<(String, RouteDetails)>,
    partial: Seq<char>,
    limit: nat,
) -> Seq<Seq<char>> {
    first_n(ranked_keys(keys_of(routes), partial), limit)
}

/// Suggests the route keys closest to `partial`.
pub fn suggest_route_keys(routes: &Keyed<RouteDetails>, partial: &str, limit: usize) -> (r:
    Vec<String>)
    ensures
        views(r@) == suggested(routes@, partial@, limit as nat),
{
    let ghost wanted = ranks_of(keys_of(routes@), partial@);
    let wanted_chars = chars_of(partial);
    let list = routes.entries();
    let mut ranks: Vec<Rank> = Vec::new();
    let mut i: usize = 0;
    while i < list.len()
        invariant
            list@ == routes@,
            i <= list.len(),
            ranks.len() == i,
            wanted_chars@ == partial@,
            wanted == ranks_of(keys_of(routes@), partial@),
            forall|j: int| 0 <= j < i ==> (#[trigger] ranks@[j])@ == wanted[j],
        decreases list.len() - i,
    {
        ranks.push(Rank::of_chars(&chars_of(list[i].0.as_str()), &wanted_chars));
        i += 1;
    }
    assert(rank_models(ranks@) =~= wanted);
    let order = rank_order(&ranks);
    proof {
        lemma_ranking_is_stable(wanted, wanted.len());
        assert(indices(order@).len() == order@.len());
    }
    let ghost all = ranked_keys(keys_of(routes@), partial@);
    let mut out: Vec<String> = Vec::new();
    let mut k: usize = 0;
    while k < order.len() && k < limit
        invariant
            k <= order.len(),
            k <= limit,
            out.len() == k,
            list@ == routes@,
            order.len() == list.len(),
            indices(order@) == ranking(wanted),
            is_stable_order(ranking(wanted), wanted, list.len() as int),
            all == ranked_keys(keys_of(routes@), partial@),
            wanted == ranks_of(keys_of(routes@), partial@),
            forall|j: int| 0 <= j < k ==> (#[trigger] out@[j])@ == all[j],
        decreases order.len() - k,
    {
        proof {
            assert(indices(order@)[k as int] == order@[k as int] as int);
        }
        out.push(list[order[k]].0.clone());
        k += 1;
    }
    assert(views(out@) =~= first_n(all, limit as nat));
    out
}

/// The answer that lists suggested keys: a headline with their number,
/// then one key on each line.
pub open spec fn suggestions_text(keys: Seq<Seq<char>>) -> Seq<char> {
    "Suggested route keys (top "@ + decimal(keys.len()) + "):\n"@ + joined(keys, "\n"@)
}

/// Shows suggested keys in words.
pub fn render_suggestions(keys: &Vec<String>) -> (r: String)
    ensures
        r@ == suggestions_text(views(keys@)),
{
    let mut out = String::from_str("Suggested route keys (top ");
    out.append(decimal_string(keys.len() as u64).as_str());
    out.append("):\n");
    out.append(join(keys, "\n").as_str());
    out
}


/// Every hit among the routes of a namespace stands for one of them that
/// matches the query.
proof fn lemma_hit_has_route(
    namespace: Seq<char>,
    routes: Seq<(String, RouteDetails)>,
    q: Seq<char>,
    i: int,
)
    requires
        0 <= i < hits_in_routes(namespace, routes, q).len(),
    ensures
        exists|j: int|
            0 <= j < routes.len() && route_matches(q, routes[j].0@, routes[j].1)
                && hits_in_routes(namespace, routes, q)[i] == hit_of(
                namespace,
                #[trigger] routes[j].0@,
                routes[j].1,
            ),
    decreases routes.len(),
{
    let before = hits_in_routes(namespace, routes.drop_last(), q);
    if i < before.len() {
        lemma_hit_has_route(namespace, routes.drop_last(), q, i);
        let j = choose|j: int|
            0 <= j < routes.drop_last().len() && route_matches(
                q,
                routes.drop_last()[j].0@,
                routes.drop_last()[j].1,
            ) && before[i] == hit_of(
                namespace,
                #[trigger] routes.drop_last()[j].0@,
                routes.drop_last()[j].1,
            );
        assert(routes[j] == routes.drop_last()[j]);
    } else {
        let j = routes.len() - 1;
        assert(routes[j] == routes.last());
    }
}

/// A search in a namespace gives at most `limit` hits; each of them is
/// under that namespace and stands for one of its routes whose key, name,
/// description or example matches the query.
pub proof fn lemma_hits_are_matches(
    namespace: Seq<char>,
    map: RoutesMap,
    q: Seq<char>,
    limit: nat,
    i: int,
)
    requires
        0 <= i < first_n(hits_in_namespace(namespace, map, q), limit).len(),
    ensures
        first_n(hits_in_namespace(namespace, map, q), limit).len() <= limit,
        first_n(hits_in_namespace(namespace, map, q), limit)[i].namespace == namespace,
        map.routes matches Some(routes) && exists|j: int|
            0 <= j < routes@.len() && route_matches(q, routes@[j].0@, routes@[j].1) && first_n(
                hits_in_namespace(namespace, map, q),
                limit,
            )[i] == hit_of(namespace, #[trigger] routes@[j].0@, routes@[j].1),
{
    let routes = map.routes->Some_0;
    lemma_hit_has_route(namespace, routes@, q, i);
}

/// Among the suggested keys, one that starts with the partial key stands
/// before every one that does not, one that contains it before every one
/// that does not, and of two keys alike in both the one closer in length
/// stands first.
pub proof fn lemma_suggestions_ranked(
    routes: Seq<(String, RouteDetails)>,
    partial: Seq<char>,
    limit: nat,
    a: int,
    b: int,
)
    requires
        0 <= a < suggested(routes, partial, limit).len(),
        0 <= b < suggested(routes, partial, limit).len(),
    ensures
        suggested(routes, partial, limit).len() <= limit,
        ({
            let x = suggested(routes, partial, limit)[a];
            let y = suggested(routes, partial, limit)[b];
            &&& is_prefix(partial, x) && !is_prefix(partial, y) ==> a < b
            &&& is_substring(partial, x) && !is_substring(partial, y) ==> a < b
            &&& (is_prefix(partial, x) <==> is_prefix(partial, y)) && (is_substring(partial, x)
                <==> is_substring(partial, y)) && rank_of(x, partial).distance < rank_of(
                y,
                partial,
            ).distance ==> a < b
        }),
{
    let keys = keys_of(routes);
    lemma_ranking_is_stable(ranks_of(keys, partial), keys.len());
    lemma_ranking_prefers_closer(keys, partial, a, b);
}


/// Among routes of which no two share a key, a search finds no route
/// twice: the hits differ from each other in their route keys.
pub proof fn lemma_hits_not_repeated(
    namespace: Seq<char>,
    routes: Seq<(String, RouteDetails)>,
    q: Seq<char>,
    a: int,
    b: int,
)
    requires
        distinct_keys(routes),
        0 <= a < b < hits_in_routes(namespace, routes, q).len(),
    ensures
        hits_in_routes(namespace, routes, q)[a].route_key != hits_in_routes(
            namespace,
            routes,
            q,
        )[b].route_key,
    decreases routes.len(),
{
    let earlier = routes.drop_last();
    let before = hits_in_routes(namespace, earlier, q);
    assert forall|i: int, j: int| 0 <= i < j < earlier.len() implies (#[trigger] earlier[i]).0@ != (
    #[trigger] earlier[j]).0@ by {
        assert(earlier[i] == routes[i] && earlier[j] == routes[j]);
    }
    if b < before.len() {
        lemma_hits_not_repeated(namespace, earlier, q, a, b);
    } else {
        lemma_hit_has_route(namespace, earlier, q, a);
        let j = choose|j: int|
            0 <= j < earlier.len() && route_matches(q, earlier[j].0@, earlier[j].1) && before[a]
                == hit_of(namespace, #[trigger] earlier[j].0@, earlier[j].1);
        assert(earlier[j] == routes[j]);
        assert(routes[j].0@ != routes[routes.len() - 1].0@);
    }
}

} // verus!
