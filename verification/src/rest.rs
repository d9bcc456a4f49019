//! The REST side of the client: request addresses, the decoding of paged
//! map responses and character lists, the paging of the map fetch, and the
//! ordering of the swarm demand board.

use vstd::prelude::*;

use crate::action::Action;
use crate::apply::{reads_i32, reads_text};
use crate::game::{CharacterState, CharacterView, MapTile, TileView};
use crate::json::{field_text, field_u64, get_str, get_u64, json_str, text_or_empty, Json};
use crate::notify::{characters_view, i32_or_zero};
use crate::session::demand_view;
use crate::state::GameState;
use crate::text::{decimal, endpoint, push_decimal, trim_slashes};
use crate::tiles::key_of;

verus! {

/// The ArtifactsMMO API server.
pub const API_BASE_URL: &'static str = "https://api.artifactsmmo.com";

/// Tiles asked for per map page.
pub const MAP_PAGE_SIZE: u32 = 10000;

/// The `Authorization` header value for a token, `Bearer <token>`.
pub fn bearer(token: &str) -> (r: String)
    ensures
        r@ == "Bearer "@ + token@,
{
    let mut t = String::from_str("Bearer ");
    t.append(token);
    t
}

/// The address of the character list, `<root>/my/characters`.
pub fn characters_url(root: &str) -> (r: String)
    ensures
        r@ == trim_slashes(root@) + "/my/characters"@,
{
    endpoint(root, "/my/characters")
}

/// The address of map page `page`, `<base>/maps?page=<page>&size=<size>`.
pub fn maps_url(base: &str, page: u32, size: u32) -> (r: String)
    ensures
        r@ == base@ + "/maps?page="@ + decimal(page as nat) + "&size="@ + decimal(size as nat),
{
    let mut t = String::from_str(base);
    t.append("/maps?page=");
    push_decimal(&mut t, page as u64);
    t.append("&size=");
    push_decimal(&mut t, size as u64);
    t
}

/// The page count member `pages` of `v`, or one.
pub open spec fn pages_of(v: Json) -> u32 {
    match field_u64(v, "pages"@) {
        Some(n) => n as u32,
        None => 1,
    }
}

/// The payload of a response: its `data` member, or the response itself.
pub open spec fn page_data(j: Json) -> Json {
    match j.field("data"@) {
        Some(d) => d,
        None => j,
    }
}

/// The items and page count of a paged response. Two shapes exist:
/// `{"data": {"items": [...], "pages": N}}`, with the count beside the
/// items, and `{"data": [...], "pages": N}`, with the count at the top.
/// Anything else is an empty single page.
pub open spec fn page_of(j: Json) -> (Seq<Json>, u32) {
    let d = page_data(j);
    match d.field("items"@) {
        Some(Json::Array(a)) => (a@, pages_of(d)),
        _ => match d {
            Json::Array(a) => (a@, pages_of(j)),
            _ => (Seq::empty(), 1),
        },
    }
}

fn pages_exec(v: &Json) -> (r: u32)
    ensures
        r == pages_of(*v),
{
    match get_u64(v, "pages") {
        Some(n) => n as u32,
        None => 1,
    }
}

/// The items and page count of a paged response (see [`page_of`]).
pub fn extract_page(json: Json) -> (r: (Vec<Json>, u32))
    ensures
        (r.0@, r.1) == page_of(json),
{
    let top_pages = pages_exec(&json);
    let has_data = match json.get("data") {
        Some(_) => true,
        None => false,
    };
    let ghost j = json;
    let data = if has_data {
        match json.into_member("data") {
            Some(d) => d,
            None => Json::Null,
        }
    } else {
        json
    };
    assert(data == page_data(j));
    let inner_pages = pages_exec(&data);
    let has_items = match data.get("items") {
        Some(Json::Array(_)) => true,
        _ => false,
    };
    if has_items {
        match data.into_member("items") {
            Some(Json::Array(a)) => (a, inner_pages),
            _ => (Vec::new(), 1),
        }
    } else {
        match data {
            Json::Array(a) => (a, top_pages),
            _ => (Vec::new(), 1),
        }
    }
}

/// The content object of a tile: `interactions.content` in the current
/// schema, else the older top-level `content`, when an object.
pub open spec fn content_node(t: Json) -> Option<Json> {
    let newer = match t.field("interactions"@) {
        Some(i) => match i.field("content"@) {
            Some(c) => if c is Object {
                Some(c)
            } else {
                None
            },
            None => None,
        },
        None => None,
    };
    match newer {
        Some(c) => Some(c),
        None => match t.field("content"@) {
            Some(c) => if c is Object {
                Some(c)
            } else {
                None
            },
            None => None,
        },
    }
}

/// The content type and code of a tile (empty without content).
pub open spec fn content_of(t: Json) -> (Seq<char>, Seq<char>) {
    match content_node(t) {
        Some(c) => (text_or_empty(c, "type"@), text_or_empty(c, "code"@)),
        None => (Seq::empty(), Seq::empty()),
    }
}

/// The content type and code of a tile (see [`content_of`]).
pub fn extract_content(t: &Json) -> (r: (String, String))
    ensures
        (r.0@, r.1@) == content_of(*t),
{
    let newer: Option<&Json> = match t.get("interactions") {
        Some(i) => match i.get("content") {
            Some(c) => if c.is_object() {
                Some(c)
            } else {
                None
            },
            None => None,
        },
        None => None,
    };
    let node: Option<&Json> = match newer {
        Some(c) => Some(c),
        None => match t.get("content") {
            Some(c) => if c.is_object() {
                Some(c)
            } else {
                None
            },
            None => None,
        },
    };
    match node {
        Some(c) => (json_str(c, "type"), json_str(c, "code")),
        None => (String::new(), String::new()),
    }
}

/// The map tile a tile object of the map list describes: coordinates and
/// map ID (zero when missing, cut to 32 bits), the layer (`overworld` when
/// missing), skin, name and content.
pub open spec fn tile_of(t: Json) -> TileView {
    TileView {
        x: i32_or_zero(t, "x"@),
        y: i32_or_zero(t, "y"@),
        map_id: i32_or_zero(t, "map_id"@),
        layer: match field_text(t, "layer"@) {
            Some(l) => l,
            None => "overworld"@,
        },
        name: text_or_empty(t, "name"@),
        skin: text_or_empty(t, "skin"@),
        content_type: content_of(t).0,
        content_code: content_of(t).1,
    }
}

fn i32_member(v: &Json, key: &str) -> (r: i32)
    ensures
        r == i32_or_zero(*v, key@),
{
    match crate::json::get_i64(v, key) {
        Some(i) => i as i32,
        None => 0,
    }
}

/// The map tile a tile object describes (see [`tile_of`]).
pub fn tile_from_json(t: &Json) -> (r: MapTile)
    ensures
        r@ == tile_of(*t),
{
    let layer = match get_str(t, "layer") {
        Some(l) => String::from_str(l),
        None => String::from_str("overworld"),
    };
    let (content_type, content_code) = extract_content(t);
    MapTile {
        x: i32_member(t, "x"),
        y: i32_member(t, "y"),
        map_id: i32_member(t, "map_id"),
        layer,
        name: json_str(t, "name"),
        skin: json_str(t, "skin"),
        content_type,
        content_code,
    }
}

/// A tile object's members give the tile: its coordinates and map ID from
/// the integer members `x`, `y` and `map_id` (zero when missing), its layer
/// from `layer` (`overworld` when missing), its name from `name` and its
/// sprite from `skin` (empty when missing), and its content's type and
/// code from the content object: `interactions.content` when that is an
/// object, else `content` when that is one, else none.
pub proof fn tile_members_law(t: Json)
    ensures
        reads_i32(tile_of(t).x, 0, t, "x"@),
        reads_i32(tile_of(t).y, 0, t, "y"@),
        reads_i32(tile_of(t).map_id, 0, t, "map_id"@),
        reads_text(tile_of(t).layer, "overworld"@, t, "layer"@),
        reads_text(tile_of(t).name, Seq::empty(), t, "name"@),
        reads_text(tile_of(t).skin, Seq::empty(), t, "skin"@),
        (t.field("interactions"@) matches Some(i) && i.field("content"@) matches Some(c) && c is Object)
            ==> ({
            let c = t.field("interactions"@)->0.field("content"@)->0;
            reads_text(tile_of(t).content_type, Seq::empty(), c, "type"@)
                && reads_text(tile_of(t).content_code, Seq::empty(), c, "code"@)
        }),
        !(t.field("interactions"@) matches Some(i) && i.field("content"@) matches Some(c) && c is Object)
            && (t.field("content"@) matches Some(c) && c is Object) ==> ({
            let c = t.field("content"@)->0;
            reads_text(tile_of(t).content_type, Seq::empty(), c, "type"@)
                && reads_text(tile_of(t).content_code, Seq::empty(), c, "code"@)
        }),
        !(t.field("interactions"@) matches Some(i) && i.field("content"@) matches Some(c) && c is Object)
            && !(t.field("content"@) matches Some(c) && c is Object) ==> tile_of(t).content_type.len()
            == 0 && tile_of(t).content_code.len() == 0,
{
}

/// The tiles after recording each tile object of `items` in order.
pub open spec fn tiles_after(
    m: Map<(i32, i32, Seq<char>), TileView>,
    items: Seq<Json>,
) -> Map<(i32, i32, Seq<char>), TileView>
    decreases items.len(),
{
    if items.len() == 0 {
        m
    } else {
        let t = tile_of(items.last());
        tiles_after(m, items.drop_last()).insert(key_of(t), t)
    }
}

/// The layers by map ID after recording each tile object of `items` in
/// order (tiles with map ID zero record no layer).
pub open spec fn layers_after(m: Map<i32, Seq<char>>, items: Seq<Json>) -> Map<i32, Seq<char>>
    decreases items.len(),
{
    if items.len() == 0 {
        m
    } else {
        let t = tile_of(items.last());
        let before = layers_after(m, items.drop_last());
        if t.map_id != 0 {
            before.insert(t.map_id, t.layer)
        } else {
            before
        }
    }
}

/// The layers of a game state by map ID.
pub open spec fn layers_view(g: GameState) -> Map<i32, Seq<char>> {
    g.map_id_to_layer@.map_values(|s: String| s@)
}

impl GameState {
    /// Records the tiles of a map page, in order.
    pub fn apply_map_page(&mut self, items: &Vec<Json>)
        ensures
            final(self).map_tiles@ == tiles_after(old(self).map_tiles@, items@),
            layers_view(*final(self)) == layers_after(layers_view(*old(self)), items@),
            *final(self) == (GameState {
                map_tiles: final(self).map_tiles,
                map_id_to_layer: final(self).map_id_to_layer,
                ..*old(self)
            }),
    {
        let mut i: usize = 0;
        while i < items.len()
            invariant
                i <= items@.len(),
                self.map_tiles@ == tiles_after(old(self).map_tiles@, items@.take(i as int)),
                layers_view(*self) == layers_after(layers_view(*old(self)), items@.take(i as int)),
                *self == (GameState {
                    map_tiles: self.map_tiles,
                    map_id_to_layer: self.map_id_to_layer,
                    ..*old(self)
                }),
            decreases items.len() - i,
        {
            assert(items@.take(i + 1).drop_last() =~= items@.take(i as int));
            assert(items@.take(i + 1).last() == items@[i as int]);
            let tile = tile_from_json(&items[i]);
            let ghost before = layers_view(*self);
            let ghost tv = tile@;
            self.record_map_tile(tile);
            assert(layers_view(*self) =~= (if tv.map_id != 0 {
                before.insert(tv.map_id, tv.layer)
            } else {
                before
            }));
            i = i + 1;
        }
        assert(items@.take(items@.len() as int) =~= items@);
    }
}

/// Paging state of the startup map fetch.
pub struct MapFetch {
    /// The next page to ask for.
    pub page: u32,
    /// Tiles received so far.
    pub total_fetched: usize,
}

impl MapFetch {
    /// A fetch that starts at page one.
    pub fn new() -> (r: MapFetch)
        ensures
            r.page == 1,
            r.total_fetched == 0,
    {
        MapFetch { page: 1, total_fetched: 0 }
    }

    /// The address of the next page under `base`.
    pub fn url(&self, base: &str) -> (r: String)
        ensures
            r@ == base@ + "/maps?page="@ + decimal(self.page as nat) + "&size="@ + decimal(
                MAP_PAGE_SIZE as nat,
            ),
    {
        maps_url(base, self.page, MAP_PAGE_SIZE)
    }

    /// Records a page response: its tiles go into the game state and are
    /// counted; returns whether another page follows (this was not the last
    /// page and it held tiles), advancing to it.
    pub fn on_page(&mut self, game: &mut GameState, body: Json) -> (r: bool)
        requires
            old(self).total_fetched + page_of(body).0.len() <= usize::MAX,
        ensures
            final(game).map_tiles@ == tiles_after(old(game).map_tiles@, page_of(body).0),
            layers_view(*final(game)) == layers_after(layers_view(*old(game)), page_of(body).0),
            *final(game) == (GameState {
                map_tiles: final(game).map_tiles,
                map_id_to_layer: final(game).map_id_to_layer,
                ..*old(game)
            }),
            final(self).total_fetched == old(self).total_fetched + page_of(body).0.len(),
            r == (old(self).page < page_of(body).1 && page_of(body).0.len() > 0),
            final(self).page == if r {
                old(self).page + 1
            } else {
                old(self).page as int
            },
    {
        let (items, total_pages) = extract_page(body);
        game.apply_map_page(&items);
        self.total_fetched = self.total_fetched + items.len();
        if self.page >= total_pages || items.len() == 0 {
            false
        } else {
            self.page = self.page + 1;
            true
        }
    }
}

/// The characters of a character list: each object with a non-empty name,
/// in order, holding its name and account and then its full schema.
pub open spec fn listed_characters(a: Seq<Json>) -> Seq<CharacterView>
    decreases a.len(),
{
    if a.len() == 0 {
        Seq::empty()
    } else {
        let rest = listed_characters(a.drop_last());
        let n = a.last();
        if text_or_empty(n, "name"@).len() == 0 {
            rest
        } else {
            rest.push(
                CharacterView {
                    name: text_or_empty(n, "name"@),
                    account: text_or_empty(n, "account"@),
                    ..CharacterView::initial()
                }.with_full_schema(n),
            )
        }
    }
}

/// The character list of a `GET /my/characters` response: the `data`
/// array, when present.
pub open spec fn characters_list(j: Json) -> Option<Seq<Json>> {
    match j.field("data"@) {
        Some(Json::Array(a)) => Some(a@),
        _ => None,
    }
}

/// The characters of a `GET /my/characters` response: `None` when it has
/// no `data` array, else the named characters in order.
pub fn characters_from_response(json: &Json) -> (r: Option<Vec<CharacterState>>)
    ensures
        characters_list(*json) is None ==> r is None,
        characters_list(*json) matches Some(a) ==> (r matches Some(v) && characters_view(v@)
            == listed_characters(a)),
{
    let arr: &Vec<Json> = match json.get("data") {
        Some(Json::Array(a)) => a,
        _ => {
            return None;
        },
    };
    let mut r: Vec<CharacterState> = Vec::new();
    let mut i: usize = 0;
    while i < arr.len()
        invariant
            i <= arr@.len(),
            characters_list(*json) == Some(arr@),
            characters_view(r@) == listed_characters(arr@.take(i as int)),
        decreases arr.len() - i,
    {
        let node = &arr[i];
        assert(arr@.take(i + 1).drop_last() =~= arr@.take(i as int));
        assert(arr@.take(i + 1).last() == arr@[i as int]);
        let name = json_str(node, "name");
        if !name.as_str().is_empty() {
            let mut cs = CharacterState::default();
            cs.name = name;
            cs.account = json_str(node, "account");
            let ghost c0 = cs@;
            assert(c0 =~~= CharacterView {
                name: text_or_empty(*node, "name"@),
                account: text_or_empty(*node, "account"@),
                ..CharacterView::initial()
            });
            cs.apply_full_schema(node);
            let ghost before = r@;
            r.push(cs);
            assert(characters_view(r@) =~= characters_view(before).push(cs@));
        }
        i = i + 1;
    }
    assert(arr@.take(arr@.len() as int) =~= arr@);
    Some(r)
}

/// Whether a character list response names at least one character.
pub open spec fn has_listed(j: Json) -> bool {
    characters_list(j) matches Some(a) && listed_characters(a).len() > 0
}

/// The action a character list response leads to: the fetched characters
/// when there are any.
pub fn characters_action(json: &Json) -> (r: Option<Action>)
    ensures
        has_listed(*json) ==> (r matches Some(Action::CharactersFetched(v)) && characters_view(v@)
            == listed_characters(characters_list(*json)->0)),
        !has_listed(*json) ==> r is None,
{
    match characters_from_response(json) {
        Some(v) => {
            if v.len() > 0 {
                Some(Action::CharactersFetched(v))
            } else {
                None
            }
        },
        None => None,
    }
}

/// The character of a bot: its name, then the bot's detail object applied
/// as a full schema.
pub fn bot_character(name: &str, detail: &Json) -> (r: CharacterState)
    ensures
        r@ == (CharacterView { name: name@, ..CharacterView::initial() }).with_full_schema(*detail),
{
    let mut cs = CharacterState::default();
    cs.name = String::from_str(name);
    let ghost c0 = cs@;
    assert(c0 =~~= CharacterView { name: name@, ..CharacterView::initial() });
    cs.apply_full_schema(detail);
    cs
}

/// Whether the demand entries are in order of quantity, largest first.
pub open spec fn by_quantity_desc(s: Seq<(Seq<char>, u32)>) -> bool {
    forall|i: int, j: int| 0 <= i < j < s.len() ==> s[i].1 >= s[j].1
}

/// `s` with `x` inserted after every entry whose quantity is at least
/// `x`'s, so that entries of equal quantity keep their order.
pub open spec fn insert_by_quantity(s: Seq<(Seq<char>, u32)>, x: (Seq<char>, u32)) -> Seq<(Seq<char>, u32)>
    decreases s.len(),
{
    if s.len() == 0 {
        seq![x]
    } else if s.last().1 >= x.1 {
        s.push(x)
    } else {
        insert_by_quantity(s.drop_last(), x).push(s.last())
    }
}

/// The entries stably sorted by quantity, largest first.
pub open spec fn sorted_by_quantity(s: Seq<(Seq<char>, u32)>) -> Seq<(Seq<char>, u32)>
    decreases s.len(),
{
    if s.len() == 0 {
        Seq::empty()
    } else {
        insert_by_quantity(sorted_by_quantity(s.drop_last()), s.last())
    }
}

proof fn lemma_insert_by_quantity(s: Seq<(Seq<char>, u32)>, x: (Seq<char>, u32))
    requires
        by_quantity_desc(s),
    ensures
        by_quantity_desc(insert_by_quantity(s, x)),
        insert_by_quantity(s, x).to_multiset() =~= s.to_multiset().insert(x),
    decreases s.len(),
{
    broadcast use vstd::seq_lib::group_to_multiset_ensures, vstd::multiset::group_multiset_axioms;

    if s.len() == 0 {
        assert(s.to_multiset() =~= vstd::multiset::Multiset::empty());
        assert(seq![x] =~= s.push(x));
    } else if s.last().1 >= x.1 {
    } else {
        let d = s.drop_last();
        lemma_insert_by_quantity(d, x);
        let r = insert_by_quantity(d, x);
        assert forall|i: int| 0 <= i < r.len() implies r[i].1 >= s.last().1 by {
            assert(r.contains(r[i]));
            if r[i] != x {
                assert(r.to_multiset().count(r[i]) > 0);
                assert(d.to_multiset().insert(x).count(r[i]) == d.to_multiset().count(r[i]));
                assert(d.to_multiset().count(r[i]) > 0);
                let j = choose|j: int| 0 <= j < d.len() && d[j] == r[i];
                assert(s[j] == d[j]);
            }
        }
        assert(s =~= d.push(s.last()));
    }
}

proof fn lemma_sorted_by_quantity(s: Seq<(Seq<char>, u32)>)
    ensures
        by_quantity_desc(sorted_by_quantity(s)),
        sorted_by_quantity(s).to_multiset() =~= s.to_multiset(),
    decreases s.len(),
{
    broadcast use vstd::seq_lib::group_to_multiset_ensures;

    if s.len() == 0 {
        assert(sorted_by_quantity(s).to_multiset() =~= s.to_multiset());
    } else {
        lemma_sorted_by_quantity(s.drop_last());
        lemma_insert_by_quantity(sorted_by_quantity(s.drop_last()), s.last());
        assert(s =~= s.drop_last().push(s.last()));
    }
}

/// Inserts a demand entry into a list ordered by quantity, largest first,
/// after every entry whose quantity is at least its own.
fn insert_demand(v: &mut Vec<(String, u32)>, x: (String, u32))
    ensures
        demand_view(final(v)@) == insert_by_quantity(demand_view(old(v)@), (x.0@, x.1)),
{
    let ghost s0 = demand_view(v@);
    let ghost xv = (x.0@, x.1);
    let mut k: usize = v.len();
    assert(s0.take(k as int) =~= s0);
    assert(s0 + s0.skip(k as int) =~= s0);
    while k > 0 && v[k - 1].1 < x.1
        invariant
            k <= v@.len(),
            v@ == old(v)@,
            s0 == demand_view(v@),
            xv == (x.0@, x.1),
            insert_by_quantity(s0, xv) == insert_by_quantity(s0.take(k as int), xv) + s0.skip(k as int),
        decreases k,
    {
        proof {
            let t = s0.take(k as int);
            assert(t.last() == s0[k - 1]);
            assert(t.drop_last() =~= s0.take(k - 1));
            assert(insert_by_quantity(t, xv) == insert_by_quantity(s0.take(k - 1), xv).push(s0[k - 1]));
            assert(s0.skip(k - 1) =~= seq![s0[k - 1]] + s0.skip(k as int));
            assert(insert_by_quantity(s0.take(k - 1), xv).push(s0[k - 1]) + s0.skip(k as int)
                =~= insert_by_quantity(s0.take(k - 1), xv) + s0.skip(k - 1));
        }
        k = k - 1;
    }
    proof {
        let t = s0.take(k as int);
        if k > 0 {
            assert(t.last() == s0[k - 1]);
        }
        assert(insert_by_quantity(t, xv) =~= t.push(xv));
    }
    v.insert(k, x);
    assert(demand_view(v@) =~= s0.take(k as int).push(xv) + s0.skip(k as int));
}

/// Orders the swarm demand by quantity, largest first; entries of equal
/// quantity keep their order.
pub fn sort_demand(v: Vec<(String, u32)>) -> (r: Vec<(String, u32)>)
    ensures
        demand_view(r@) == sorted_by_quantity(demand_view(v@)),
        demand_view(r@).to_multiset() == demand_view(v@).to_multiset(),
        by_quantity_desc(demand_view(r@)),
{
    let ghost src = demand_view(v@);
    let mut input = v;
    let mut out: Vec<(String, u32)> = Vec::new();
    let ghost mut k: int = 0;
    assert(demand_view(input@) =~= src.skip(0));
    assert(src.take(0) =~= Seq::<(Seq<char>, u32)>::empty());
    assert(demand_view(out@) =~= Seq::<(Seq<char>, u32)>::empty());
    while input.len() > 0
        invariant
            0 <= k <= src.len(),
            demand_view(input@) == src.skip(k),
            demand_view(out@) == sorted_by_quantity(src.take(k)),
        decreases input.len(),
    {
        let ghost in0 = demand_view(input@);
        let ghost raw0 = input@;
        let item = input.remove(0);
        proof {
            assert(demand_view(input@) =~= in0.remove(0));
            assert(in0.remove(0) =~= src.skip(k + 1));
            assert(item == raw0[0]);
            assert(in0[0] == (item.0@, item.1));
            assert(in0[0] == src[k]);
            assert(src.take(k + 1).drop_last() =~= src.take(k));
            assert(src.take(k + 1).last() == src[k]);
        }
        insert_demand(&mut out, item);
        proof {
            k = k + 1;
        }
    }
    assert(src.take(k) =~= src);
    proof {
        lemma_sorted_by_quantity(src);
    }
    out
}

} // verus!
