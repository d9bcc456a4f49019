//! The map tile store, keyed by position and layer.

use vstd::prelude::*;

use crate::game::{MapTile, TileView};
use crate::text::same_text;

verus! {

/// The key of a tile: its coordinates and layer.
pub open spec fn key_of(t: TileView) -> (i32, i32, Seq<char>) {
    (t.x, t.y, t.layer)
}

/// The tiles of a list as a map from key to tile, later entries winning.
pub open spec fn tile_map(s: Seq<TileView>) -> Map<(i32, i32, Seq<char>), TileView>
    decreases s.len(),
{
    if s.len() == 0 {
        Map::empty()
    } else {
        tile_map(s.drop_last()).insert(key_of(s.last()), s.last())
    }
}

/// Whether no two tiles of a list share a key.
pub open spec fn keys_unique(s: Seq<TileView>) -> bool {
    forall|i: int, j: int| 0 <= i < j < s.len() ==> key_of(s[i]) != key_of(s[j])
}

/// The views of a list of tiles.
pub open spec fn tiles_view(v: Seq<MapTile>) -> Seq<TileView> {
    v.map_values(|t: MapTile| t@)
}

proof fn lemma_tile_map_entries(s: Seq<TileView>)
    requires
        keys_unique(s),
    ensures
        forall|i: int| 0 <= i < s.len() ==> #[trigger] tile_map(s).contains_key(key_of(s[i]))
            && tile_map(s)[key_of(s[i])] == s[i],
        forall|k: (i32, i32, Seq<char>)| #[trigger] tile_map(s).contains_key(k) ==> exists|i: int|
            0 <= i < s.len() && key_of(s[i]) == k,
    decreases s.len(),
{
    if s.len() > 0 {
        let p = s.drop_last();
        assert(keys_unique(p));
        lemma_tile_map_entries(p);
        let m = tile_map(p).insert(key_of(s.last()), s.last());
        assert(tile_map(s) == m);
        assert forall|i: int| 0 <= i < s.len() implies #[trigger] tile_map(s).contains_key(
            key_of(s[i]),
        ) && tile_map(s)[key_of(s[i])] == s[i] by {
            if i < s.len() - 1 {
                assert(p[i] == s[i]);
                assert(tile_map(p).contains_key(key_of(p[i])));
                assert(key_of(s[i]) != key_of(s[s.len() - 1]));
            }
        }
        assert forall|k: (i32, i32, Seq<char>)| #[trigger] tile_map(s).contains_key(k) implies exists|
            i: int,
        | 0 <= i < s.len() && key_of(s[i]) == k by {
            if k == key_of(s.last()) {
                assert(key_of(s[s.len() - 1]) == k);
            } else {
                assert(tile_map(p).contains_key(k));
                let i = choose|i: int| 0 <= i < p.len() && key_of(p[i]) == k;
                assert(p[i] == s[i]);
                assert(key_of(s[i]) == k);
            }
        }
    }
}

proof fn lemma_tile_map_update(s: Seq<TileView>, i: int, t: TileView)
    requires
        keys_unique(s),
        0 <= i < s.len(),
        key_of(t) == key_of(s[i]),
    ensures
        tile_map(s.update(i, t)) == tile_map(s).insert(key_of(t), t),
        keys_unique(s.update(i, t)),
    decreases s.len(),
{
    let u = s.update(i, t);
    assert(keys_unique(u)) by {
        assert forall|a: int, b: int| 0 <= a < b < u.len() implies key_of(u[a]) != key_of(u[b]) by {
            if a == i {
                assert(key_of(s[i]) != key_of(s[b]));
            } else if b == i {
                assert(key_of(s[a]) != key_of(s[i]));
            } else {
                assert(key_of(s[a]) != key_of(s[b]));
            }
        }
    }
    if i == s.len() - 1 {
        assert(u.drop_last() =~= s.drop_last());
        assert(tile_map(u) =~= tile_map(s).insert(key_of(t), t));
    } else {
        let p = s.drop_last();
        assert(keys_unique(p));
        lemma_tile_map_update(p, i, t);
        assert(u.drop_last() =~= p.update(i, t));
        assert(key_of(s.last()) != key_of(s[i]));
        assert(tile_map(u) =~= tile_map(s).insert(key_of(t), t));
    }
}

/// Whether some tile of `m` has the skin `skin`.
pub open spec fn has_skin(m: Map<(i32, i32, Seq<char>), TileView>, skin: Seq<char>) -> bool {
    exists|k| m.contains_key(k) && m[k].skin == skin
}

/// Whether some string of `v` holds `skin`.
pub open spec fn lists_skin(v: Seq<String>, skin: Seq<char>) -> bool {
    exists|i: int| 0 <= i < v.len() && v[i]@ == skin
}

/// Map tiles, one per position and layer.
pub struct TileMap {
    tiles: Vec<MapTile>,
}

impl View for TileMap {
    type V = Map<(i32, i32, Seq<char>), TileView>;

    closed spec fn view(&self) -> Map<(i32, i32, Seq<char>), TileView> {
        tile_map(tiles_view(self.tiles@))
    }
}

impl TileMap {
    #[verifier::type_invariant]
    closed spec fn wf(self) -> bool {
        keys_unique(tiles_view(self.tiles@))
    }

    /// An empty tile store.
    pub fn new() -> (r: TileMap)
        ensures
            r@ == Map::<(i32, i32, Seq<char>), TileView>::empty(),
    {
        let r = TileMap { tiles: Vec::new() };
        assert(tiles_view(r.tiles@) =~= Seq::empty());
        r
    }

    /// The number of tiles stored.
    pub fn len(&self) -> (n: usize)
        ensures
            n == self@.len(),
    {
        proof {
            use_type_invariant(self);
            self.lemma_len();
        }
        self.tiles.len()
    }

    proof fn lemma_len(self)
        requires
            self.wf(),
        ensures
            self@.len() == self.tiles@.len(),
            self@.dom().finite(),
    {
        lemma_unique_len(tiles_view(self.tiles@));
    }

    /// Looks up the tile at `(x, y)` on `layer`.
    pub fn get(&self, x: i32, y: i32, layer: &str) -> (r: Option<&MapTile>)
        ensures
            r matches Some(t) ==> self@.contains_key((x, y, layer@)) && self@[(x, y, layer@)] == t@,
            r is None ==> !self@.contains_key((x, y, layer@)),
    {
        proof {
            use_type_invariant(self);
            lemma_tile_map_entries(tiles_view(self.tiles@));
        }
        let ghost s = tiles_view(self.tiles@);
        let mut i: usize = 0;
        while i < self.tiles.len()
            invariant
                i <= self.tiles@.len(),
                s == tiles_view(self.tiles@),
                keys_unique(s),
                self@ == tile_map(s),
                forall|j: int| 0 <= j < i ==> key_of(s[j]) != (x, y, layer@),
            decreases self.tiles.len() - i,
        {
            let t = &self.tiles[i];
            if t.x == x && t.y == y && same_text(t.layer.as_str(), layer) {
                assert(key_of(s[i as int]) == (x, y, layer@));
                proof {
                    lemma_tile_map_entries(s);
                }
                assert(tile_map(s).contains_key(key_of(s[i as int])));
                return Some(t);
            }
            i = i + 1;
        }
        proof {
            if tile_map(s).contains_key((x, y, layer@)) {
                let j = choose|j: int| 0 <= j < s.len() && key_of(s[j]) == (x, y, layer@);
                assert(key_of(s[j]) != (x, y, layer@));
            }
        }
        None
    }

    /// Stores a tile, replacing the tile with the same position and layer.
    pub fn insert(&mut self, tile: MapTile)
        ensures
            final(self)@ == old(self)@.insert(key_of(tile@), tile@),
    {
        proof {
            use_type_invariant(&*self);
        }
        let ghost s = tiles_view(self.tiles@);
        let mut i: usize = 0;
        while i < self.tiles.len()
            invariant
                i <= self.tiles@.len(),
                s == tiles_view(self.tiles@),
                s == tiles_view(old(self).tiles@),
                keys_unique(s),
                forall|j: int| 0 <= j < i ==> key_of(s[j]) != key_of(tile@),
            decreases self.tiles.len() - i,
        {
            if self.tiles[i].x == tile.x && self.tiles[i].y == tile.y && same_text(
                self.tiles[i].layer.as_str(),
                tile.layer.as_str(),
            ) {
                proof {
                    lemma_tile_map_update(s, i as int, tile@);
                    assert(tiles_view(self.tiles@.update(i as int, tile)) =~= s.update(i as int, tile@));
                }
                let mut tiles: Vec<MapTile> = Vec::new();
                std::mem::swap(&mut tiles, &mut self.tiles);
                tiles.set(i, tile);
                self.tiles = tiles;
                return;
            }
            i = i + 1;
        }
        let ghost tv = tile@;
        let mut tiles: Vec<MapTile> = Vec::new();
        std::mem::swap(&mut tiles, &mut self.tiles);
        tiles.push(tile);
        proof {
            let n = tiles_view(tiles@);
            assert(n =~= s.push(tv));
            assert(n.drop_last() =~= s);
            assert(keys_unique(n));
        }
        self.tiles = tiles;
    }

    /// The skins of all stored tiles, in storage order.
    pub fn skins(&self) -> (r: Vec<String>)
        ensures
            forall|i: int| 0 <= i < r@.len() ==> has_skin(self@, #[trigger] r@[i]@),
            forall|k| #[trigger] self@.contains_key(k) ==> lists_skin(r@, self@[k].skin),
    {
        proof {
            use_type_invariant(self);
            lemma_tile_map_entries(tiles_view(self.tiles@));
        }
        let ghost s = tiles_view(self.tiles@);
        let mut r: Vec<String> = Vec::new();
        let mut i: usize = 0;
        while i < self.tiles.len()
            invariant
                i <= self.tiles@.len(),
                s == tiles_view(self.tiles@),
                keys_unique(s),
                self@ == tile_map(s),
                r@.len() == i,
                forall|j: int| 0 <= j < i ==> #[trigger] r@[j]@ == s[j].skin,
            decreases self.tiles.len() - i,
        {
            r.push(self.tiles[i].skin.clone());
            i = i + 1;
        }
        proof {
            lemma_tile_map_entries(s);
            assert forall|j: int| 0 <= j < r@.len() implies has_skin(self@, #[trigger] r@[j]@) by {
                assert(self@.contains_key(key_of(s[j])));
                assert(self@[key_of(s[j])].skin == r@[j]@);
            }
            assert forall|k| #[trigger] self@.contains_key(k) implies lists_skin(r@, self@[k].skin) by {
                let j = choose|j: int| 0 <= j < s.len() && key_of(s[j]) == k;
                assert(self@[k] == s[j]);
                assert(r@[j]@ == self@[k].skin);
            }
        }
        r
    }
}

proof fn lemma_unique_len(s: Seq<TileView>)
    requires
        keys_unique(s),
    ensures
        tile_map(s).dom().finite(),
        tile_map(s).len() == s.len(),
    decreases s.len(),
{
    if s.len() > 0 {
        let p = s.drop_last();
        assert(keys_unique(p));
        lemma_unique_len(p);
        lemma_tile_map_entries(p);
        if tile_map(p).contains_key(key_of(s.last())) {
            let i = choose|i: int| 0 <= i < p.len() && key_of(p[i]) == key_of(s.last());
            assert(key_of(s[i]) == key_of(s[s.len() - 1]));
        }
    }
}

} // verus!
