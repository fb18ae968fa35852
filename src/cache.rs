//! The icon cache: one rendered icon per layout name, filled once at startup and
//! read by the redraw loop.
use vstd::prelude::*;
use crate::icon::ICON_BYTES;

verus! {

/// The map that inserting `vals[i]` under `keys[i]` gives, for i from first to last,
/// starting from an empty map: a later entry replaces an earlier one with the same key.
pub open spec fn map_of(keys: Seq<Seq<char>>, vals: Seq<Seq<u8>>) -> Map<Seq<char>, Seq<u8>>
    decreases keys.len(),
{
    if keys.len() == 0 {
        Map::empty()
    } else {
        map_of(keys.drop_last(), vals).insert(keys.last(), vals[keys.len() - 1])
    }
}

/// No key occurs twice.
pub open spec fn distinct_keys(keys: Seq<Seq<char>>) -> bool {
    forall|i: int, j: int| 0 <= i < keys.len() && 0 <= j < keys.len() && i != j ==> keys[i] != keys[j]
}

/// With distinct keys, the map has exactly the keys, each bound to its own value.
proof fn map_of_distinct(keys: Seq<Seq<char>>, vals: Seq<Seq<u8>>)
    requires
        distinct_keys(keys),
        vals.len() == keys.len(),
    ensures
        forall|k: Seq<char>| #[trigger]
            map_of(keys, vals).contains_key(k) <==> exists|i: int| 0 <= i < keys.len() && keys[i] == k,
        forall|i: int| 0 <= i < keys.len() ==> #[trigger] map_of(keys, vals)[keys[i]] == vals[i],
    decreases keys.len(),
{
    if keys.len() > 0 {
        let n = keys.len() - 1;
        let pre = keys.drop_last();
        map_of_distinct(pre, vals.take(n));
        same_map_of_prefix(pre, vals);
        assert forall|k: Seq<char>| #[trigger]
            map_of(keys, vals).contains_key(k) <==> exists|i: int| 0 <= i < keys.len() && keys[i] == k by {
            if map_of(keys, vals).contains_key(k) && k != keys[n] {
                let i = choose|i: int| 0 <= i < pre.len() && pre[i] == k;
                assert(keys[i] == k);
            }
            if exists|i: int| 0 <= i < keys.len() && keys[i] == k {
                let i = choose|i: int| 0 <= i < keys.len() && keys[i] == k;
                if i < n {
                    assert(pre[i] == k);
                }
            }
        }
        assert forall|i: int| 0 <= i < keys.len() implies #[trigger] map_of(keys, vals)[keys[i]] == vals[i] by {
            if i < n {
                assert(pre[i] == keys[i]);
                assert(vals.take(n)[i] == vals[i]);
            }
        }
    }
}

/// Only the first `keys.len()` values matter.
proof fn same_map_of_prefix(keys: Seq<Seq<char>>, vals: Seq<Seq<u8>>)
    requires
        keys.len() <= vals.len(),
    ensures
        map_of(keys, vals) == map_of(keys, vals.take(keys.len() as int)),
    decreases keys.len(),
{
    if keys.len() > 0 {
        let n = keys.len() - 1;
        same_map_of_prefix(keys.drop_last(), vals);
        same_map_of_prefix(keys.drop_last(), vals.take(keys.len() as int));
        assert(vals.take(keys.len() as int).take(n) =~= vals.take(n));
    }
}

/// Replacing the value of a key that occurs once replaces it in the map.
proof fn map_of_update(keys: Seq<Seq<char>>, vals: Seq<Seq<u8>>, i: int, v: Seq<u8>)
    requires
        distinct_keys(keys),
        vals.len() == keys.len(),
        0 <= i < keys.len(),
    ensures
        map_of(keys, vals.update(i, v)) == map_of(keys, vals).insert(keys[i], v),
    decreases keys.len(),
{
    let n = keys.len() - 1;
    let pre = keys.drop_last();
    if i == n {
        same_map_of_prefix(pre, vals);
        same_map_of_prefix(pre, vals.update(i, v));
        assert(vals.update(i, v).take(n) =~= vals.take(n));
        assert(map_of(keys, vals.update(i, v)) =~= map_of(keys, vals).insert(keys[i], v));
    } else {
        same_map_of_prefix(pre, vals);
        same_map_of_prefix(pre, vals.update(i, v));
        assert(vals.update(i, v).take(n) =~= vals.take(n).update(i, v));
        map_of_update(pre, vals.take(n), i, v);
        assert(pre[i] == keys[i]);
        assert(keys[i] != keys[n]);
        assert(map_of(keys, vals.update(i, v)) =~= map_of(keys, vals).insert(keys[i], v));
    }
}

/// Every key inserted is present, bound to a value of an inserted entry with that key.
proof fn map_of_contains(keys: Seq<Seq<char>>, vals: Seq<Seq<u8>>, i: int)
    requires
        vals.len() == keys.len(),
        0 <= i < keys.len(),
    ensures
        map_of(keys, vals).contains_key(keys[i]),
        exists|j: int| 0 <= j < keys.len() && keys[j] == keys[i] && map_of(keys, vals)[keys[i]] == vals[j],
    decreases keys.len(),
{
    let n = keys.len() - 1;
    if i != n && keys[i] != keys[n] {
        let pre = keys.drop_last();
        same_map_of_prefix(pre, vals);
        map_of_contains(pre, vals.take(n), i);
        let j = choose|j: int| 0 <= j < pre.len() && pre[j] == pre[i] && map_of(pre, vals.take(n))[pre[i]] == vals.take(n)[j];
        assert(keys[j] == keys[i] && map_of(keys, vals)[keys[i]] == vals[j]);
    } else {
        assert(keys[n] == keys[i]);
    }
}

/// One icon per layout name, the icon being the pixel buffer in the display
/// server's byte order.
pub struct IconCache {
    names: Vec<String>,
    icons: Vec<Vec<u8>>,
}

impl View for IconCache {
    type V = Map<Seq<char>, Seq<u8>>;

    closed spec fn view(&self) -> Map<Seq<char>, Seq<u8>> {
        map_of(self.keys(), self.vals())
    }
}

impl IconCache {
    closed spec fn keys(&self) -> Seq<Seq<char>> {
        self.names@.map_values(|s: String| s@)
    }

    closed spec fn vals(&self) -> Seq<Seq<u8>> {
        self.icons@.map_values(|v: Vec<u8>| v@)
    }

    pub closed spec fn wf(&self) -> bool {
        &&& self.names@.len() == self.icons@.len()
        &&& distinct_keys(self.keys())
    }

    /// An empty cache.
    pub fn new() -> (r: IconCache)
        ensures
            r.wf(),
            r@ == Map::<Seq<char>, Seq<u8>>::empty(),
    {
        let r = IconCache { names: Vec::new(), icons: Vec::new() };
        assert(r.keys().len() == 0);
        r
    }

    /// The number of names that have an icon.
    pub fn len(&self) -> (r: usize)
        requires
            self.wf(),
        ensures
            r == self@.dom().len(),
    {
        proof {
            map_of_distinct(self.keys(), self.vals());
            assert(self@.dom() =~= self.keys().to_set());
            self.keys().unique_seq_to_set();
        }
        self.names.len()
    }

    fn find(&self, name: &String) -> (r: Option<usize>)
        requires
            self.wf(),
        ensures
            match r {
                Some(i) => i < self.names@.len() && self.keys()[i as int] == name@,
                None => forall|i: int| 0 <= i < self.names@.len() ==> self.keys()[i] != name@,
            },
    {
        let mut i: usize = 0;
        while i < self.names.len()
            invariant
                i <= self.names@.len(),
                forall|j: int| 0 <= j < i ==> self.keys()[j] != name@,
            decreases self.names@.len() - i,
        {
            if self.names[i] == *name {
                return Some(i);
            }
            i = i + 1;
        }
        None
    }

    /// The icon stored for `name`, if there is one.
    pub fn get(&self, name: &String) -> (r: Option<&Vec<u8>>)
        requires
            self.wf(),
        ensures
            match r {
                Some(v) => self@.contains_key(name@) && self@[name@] == v@,
                None => !self@.contains_key(name@),
            },
    {
        proof {
            map_of_distinct(self.keys(), self.vals());
        }
        match self.find(name) {
            Some(i) => {
                assert(self.vals()[i as int] == self.icons@[i as int]@);
                Some(&self.icons[i])
            },
            None => None,
        }
    }

    /// Stores `icon` under `name`, replacing an icon stored under it before.
    pub fn insert(&mut self, name: String, icon: Vec<u8>)
        requires
            old(self).wf(),
        ensures
            final(self).wf(),
            final(self)@ == old(self)@.insert(name@, icon@),
    {
        match self.find(&name) {
            Some(i) => {
                proof {
                    map_of_update(self.keys(), self.vals(), i as int, icon@);
                }
                self.icons.set(i, icon);
                assert(self.vals() =~= old(self).vals().update(i as int, icon@));
                assert(self.keys() =~= old(self).keys());
            },
            None => {
                let ghost key = name@;
                self.names.push(name);
                self.icons.push(icon);
                assert(self.keys() =~= old(self).keys().push(key));
                assert(self.keys().drop_last() =~= old(self).keys());
                assert(self.vals().take(old(self).keys().len() as int) =~= old(self).vals());
                proof {
                    same_map_of_prefix(old(self).keys(), self.vals());
                }
            },
        }
    }

    /// A cache holding `icons[i]` under `names[i]` for every i; where a name occurs
    /// twice, the later icon is kept.
    pub fn from_icons(names: &Vec<String>, icons: Vec<Vec<u8>>) -> (r: IconCache)
        requires
            names.len() == icons.len(),
        ensures
            r.wf(),
            r@ == map_of(names@.map_values(|s: String| s@), icons@.map_values(|v: Vec<u8>| v@)),
    {
        let ghost keys = names@.map_values(|s: String| s@);
        let ghost vals = icons@.map_values(|v: Vec<u8>| v@);
        let mut cache = IconCache::new();
        let mut i: usize = 0;
        for icon in it: icons
            invariant
                names.len() == icons@.len(),
                it.seq() == icons@,
                i == it.index(),
                keys == names@.map_values(|s: String| s@),
                vals == icons@.map_values(|v: Vec<u8>| v@),
                cache.wf(),
                cache@ == map_of(keys.take(i as int), vals),
        {
            assert(icon == icons@[i as int]);
            cache.insert(names[i].clone(), icon);
            i = i + 1;
            proof {
                assert(keys.take(i as int).drop_last() =~= keys.take(i - 1));
            }
        }
        assert(keys.take(i as int) =~= keys);
        cache
    }
}

/// Completeness: when every icon has ICON_BYTES bytes, the cache built from the
/// names and their icons holds, for every one of the names, an icon of ICON_BYTES bytes.
pub proof fn cache_complete(keys: Seq<Seq<char>>, vals: Seq<Seq<u8>>)
    requires
        keys.len() == vals.len(),
        forall|i: int| 0 <= i < vals.len() ==> #[trigger] vals[i].len() == ICON_BYTES,
    ensures
        forall|i: int|
            0 <= i < keys.len() ==> map_of(keys, vals).contains_key(#[trigger] keys[i]) && map_of(
                keys,
                vals,
            )[keys[i]].len() == ICON_BYTES,
{
    assert forall|i: int| 0 <= i < keys.len() implies map_of(keys, vals).contains_key(
        #[trigger] keys[i],
    ) && map_of(keys, vals)[keys[i]].len() == ICON_BYTES by {
        map_of_contains(keys, vals, i);
        let j = choose|j: int| 0 <= j < keys.len() && keys[j] == keys[i] && map_of(keys, vals)[keys[i]] == vals[j];
        assert(vals[j].len() == ICON_BYTES);
    }
}

} // verus!
