//! The ClickHouse extension of a session: its dictionary schema map, the
//! aliases of its functions, and which aliases a session gets.

use crate::dictget::DictionarySchemaMap;
use crate::names::{NameMap, NameSet};
use std::sync::Arc;
use vstd::prelude::*;

verus! {

/// An (original name, alias) pair, seen as character sequences.
pub open spec fn pair_view(p: (String, String)) -> (Seq<char>, Seq<char>) {
    (p.0@, p.1@)
}

/// A sequence of pairs, seen as character sequences.
pub open spec fn pair_views(s: Seq<(String, String)>) -> Seq<(Seq<char>, Seq<char>)> {
    s.map_values(|p: (String, String)| pair_view(p))
}

/// An alias table seen as a map from original names to sets of aliases.
pub open spec fn alias_table_view(t: NameMap<NameSet>) -> Map<Seq<char>, Set<Seq<char>>> {
    t@.map_values(|s: NameSet| s@)
}

/// Whether `alias` of `original` is registered: `original` is registered and
/// `alias` is one of its aliases in the table.
pub open spec fn alias_is_registered(
    table: Map<Seq<char>, Set<Seq<char>>>,
    registered: Set<Seq<char>>,
    original: Seq<char>,
    alias: Seq<char>,
) -> bool {
    &&& table.contains_key(original)
    &&& registered.contains(original)
    &&& table[original].contains(alias)
}

/// The aliases to register: for each original name of `aliases` that is
/// registered, each of its aliases, paired with it. Each pair comes once.
pub fn alias_registrations(aliases: &NameMap<NameSet>, registered: &NameSet) -> (pairs: Vec<(String, String)>)
    ensures
        pair_views(pairs@).no_duplicates(),
        forall|o: Seq<char>, a: Seq<char>|
            #[trigger] pair_views(pairs@).contains((o, a))
                <==> alias_is_registered(alias_table_view(*aliases), registered@, o, a),
{
    let ghost table = alias_table_view(*aliases);
    let originals = aliases.keys();
    let ghost ok = originals@.map_values(|s: String| s@);
    let mut pairs: Vec<(String, String)> = Vec::new();
    let n: usize = originals.len();
    let mut i: usize = 0;
    while i < n
        invariant
            n == originals@.len(),
            i <= n,
            ok == originals@.map_values(|s: String| s@),
            ok == aliases.key_seq(),
            ok.no_duplicates(),
            forall|k: Seq<char>| #[trigger] aliases@.contains_key(k) <==> ok.contains(k),
            table == alias_table_view(*aliases),
            pair_views(pairs@).no_duplicates(),
            forall|o: Seq<char>, a: Seq<char>|
                #[trigger] pair_views(pairs@).contains((o, a))
                    <==> (exists|k: int| 0 <= k < i && #[trigger] ok[k] == o)
                        && alias_is_registered(table, registered@, o, a),
        decreases n - i,
    {
        let original = &originals[i];
        assert(ok[i as int] == original@);
        if registered.contains(original.as_str()) {
            let names = match aliases.get(original.as_str()) {
                Some(set) => set.to_vec(),
                None => Vec::new(),
            };
            let ghost nv = names@.map_values(|s: String| s@);
            assert(aliases@.contains_key(original@));
            assert(nv.to_set() == table[original@]);
            let ghost start = pair_views(pairs@);
            assert forall|o: Seq<char>, a: Seq<char>|
                #[trigger] start.contains((o, a))
                    ==> exists|k: int| 0 <= k < i && #[trigger] ok[k] == o by {
            }
            let m: usize = names.len();
            let mut j: usize = 0;
            while j < m
                invariant
                    n == originals@.len(),
                    i < n,
                    ok == originals@.map_values(|s: String| s@),
                    ok.no_duplicates(),
                    original@ == ok[i as int],
                    m == names@.len(),
                    j <= m,
                    nv == names@.map_values(|s: String| s@),
                    nv.no_duplicates(),
                    start.no_duplicates(),
                    pair_views(pairs@).no_duplicates(),
                    nv.to_set() == table[original@],
                    table == alias_table_view(*aliases),
                    forall|o: Seq<char>, a: Seq<char>|
                        #[trigger] start.contains((o, a))
                            <==> (exists|k: int| 0 <= k < i && #[trigger] ok[k] == o)
                                && alias_is_registered(table, registered@, o, a),
                    forall|o: Seq<char>, a: Seq<char>|
                        #[trigger] start.contains((o, a)) ==> exists|k: int| 0 <= k < i && #[trigger] ok[k] == o,
                    pair_views(pairs@)
                        == start + nv.take(j as int).map_values(|a: Seq<char>| (original@, a)),
                decreases m - j,
            {
                let ghost before = pair_views(pairs@);
                pairs.push((original.clone(), names[j].clone()));
                proof {
                    let after = pair_views(pairs@);
                    let added = nv.take(j as int).map_values(|a: Seq<char>| (original@, a));
                    let added2 = nv.take(j + 1).map_values(|a: Seq<char>| (original@, a));
                    assert(after =~= before.push((original@, nv[j as int])));
                    assert(added2 =~= added.push((original@, nv[j as int])));
                    assert(!before.contains((original@, nv[j as int]))) by {
                        if before.contains((original@, nv[j as int])) {
                            let x = choose|x: int| 0 <= x < before.len() && before[x] == (original@, nv[j as int]);
                            if x < start.len() {
                                assert(start.contains((original@, nv[j as int])));
                                let k = choose|k: int| 0 <= k < i && #[trigger] ok[k] == original@;
                                assert(ok[k] == ok[i as int]);
                            } else {
                                let y = x - start.len();
                                assert(added[y] == (original@, nv[y]));
                                assert(nv[y] == nv[j as int]);
                            }
                        }
                    }
                }
                j = j + 1;
            }
            proof {
                let now = pair_views(pairs@);
                let added = nv.take(m as int).map_values(|a: Seq<char>| (original@, a));
                assert(nv.take(m as int) =~= nv);
                assert forall|o: Seq<char>, a: Seq<char>|
                    (exists|k: int| 0 <= k < i + 1 && #[trigger] ok[k] == o)
                        && alias_is_registered(table, registered@, o, a)
                    implies #[trigger] now.contains((o, a)) by {
                    let k = choose|k: int| 0 <= k < i + 1 && #[trigger] ok[k] == o;
                    if k < i {
                        assert(start.contains((o, a)));
                        let x = choose|x: int| 0 <= x < start.len() && start[x] == (o, a);
                        assert(now[x] == (o, a));
                    } else {
                        assert(nv.to_set().contains(a));
                        let y = choose|y: int| 0 <= y < nv.len() && nv[y] == a;
                        assert(now[start.len() + y] == (o, a));
                    }
                }
                assert forall|o: Seq<char>, a: Seq<char>|
                    #[trigger] now.contains((o, a))
                        ==> (exists|k: int| 0 <= k < i + 1 && #[trigger] ok[k] == o)
                            && alias_is_registered(table, registered@, o, a) by {
                    if now.contains((o, a)) {
                        let x = choose|x: int| 0 <= x < now.len() && now[x] == (o, a);
                        if x < start.len() {
                            assert(start.contains((o, a)));
                        } else {
                            let y = x - start.len();
                            assert(added[y] == (original@, nv[y]));
                            assert(nv.to_set().contains(nv[y]));
                            assert(ok[i as int] == o);
                        }
                    }
                }
            }
        } else {
            proof {
                let now = pair_views(pairs@);
                assert forall|o: Seq<char>, a: Seq<char>|
                    #[trigger] now.contains((o, a))
                        <==> (exists|k: int| 0 <= k < i + 1 && #[trigger] ok[k] == o)
                            && alias_is_registered(table, registered@, o, a) by {
                    if (exists|k: int| 0 <= k < i + 1 && #[trigger] ok[k] == o)
                        && alias_is_registered(table, registered@, o, a) {
                        let k = choose|k: int| 0 <= k < i + 1 && #[trigger] ok[k] == o;
                        if k == i {
                            assert(!registered@.contains(o));
                        }
                    }
                }
            }
        }
        i = i + 1;
    }
    proof {
        let now = pair_views(pairs@);
        assert forall|o: Seq<char>, a: Seq<char>|
            #[trigger] now.contains((o, a))
                <==> alias_is_registered(table, registered@, o, a) by {
            if alias_is_registered(table, registered@, o, a) {
                assert(aliases@.contains_key(o));
                assert(ok.contains(o));
                let k = choose|k: int| 0 <= k < ok.len() && ok[k] == o;
                assert(ok[k] == o);
            }
        }
    }
    pairs
}

/// Extension for integrating ClickHouse functions into DataFusion: it holds
/// the dictionary schema map that `dictGet` reads, and the aliases of the
/// ClickHouse functions.
#[derive(Debug, Clone)]
pub struct ClickHouseContextExtension {
    dictionary_schema: Arc<DictionarySchemaMap>,
}

impl ClickHouseContextExtension {
    /// The dictionary schema map of the extension.
    pub closed spec fn spec_dictionary_schema(&self) -> DictionarySchemaMap {
        *self.dictionary_schema
    }

    /// Create a new ClickHouse context extension over a dictionary schema map.
    pub fn new(dictionary_schema: Arc<DictionarySchemaMap>) -> (e: Self)
        ensures
            e.spec_dictionary_schema() == *dictionary_schema,
    {
        ClickHouseContextExtension { dictionary_schema }
    }

    /// The dictionary schema map of the extension.
    pub fn dictionary_schema(&self) -> (m: &Arc<DictionarySchemaMap>)
        ensures
            **m == self.spec_dictionary_schema(),
    {
        &self.dictionary_schema
    }

    /// Aliases of scalar functions: `array_agg` is also `groupArray`, and
    /// `to_date` is also `toDate`.
    pub fn get_udf_aliases(&self) -> (aliases: NameMap<NameSet>)
        ensures
            aliases.key_seq() == seq!["array_agg"@, "to_date"@],
            alias_table_view(aliases) == map![
                "array_agg"@ => set!["groupArray"@],
                "to_date"@ => set!["toDate"@],
            ],
    {
        proof {
            reveal_strlit("array_agg");
            reveal_strlit("to_date");
        }
        let mut aliases: NameMap<NameSet> = NameMap::new();
        let mut group_array_aliases = NameSet::new();
        let _ = group_array_aliases.insert("groupArray".to_owned());
        let _ = aliases.insert("array_agg".to_owned(), group_array_aliases);
        assert(aliases.key_seq() =~= seq!["array_agg"@]);
        assert("to_date"@.len() == 7);
        assert("array_agg"@.len() == 9);
        assert(aliases@.dom() =~= set!["array_agg"@]);
        assert(!aliases@.contains_key("to_date"@));
        let mut to_date_aliases = NameSet::new();
        let _ = to_date_aliases.insert("toDate".to_owned());
        let _ = aliases.insert("to_date".to_owned(), to_date_aliases);
        assert(aliases.key_seq() =~= seq!["array_agg"@, "to_date"@]);
        assert(alias_table_view(aliases) =~= map![
            "array_agg"@ => set!["groupArray"@],
            "to_date"@ => set!["toDate"@],
        ]);
        aliases
    }

    /// Aliases of aggregate functions: `argMax` is also `argmax`.
    pub fn get_udaf_aliases(&self) -> (aliases: NameMap<NameSet>)
        ensures
            aliases.key_seq() == seq!["argMax"@],
            alias_table_view(aliases) == map!["argMax"@ => set!["argmax"@]],
    {
        let mut aliases: NameMap<NameSet> = NameMap::new();
        let mut argmax_aliases = NameSet::new();
        let _ = argmax_aliases.insert("argmax".to_owned());
        let _ = aliases.insert("argMax".to_owned(), argmax_aliases);
        assert(aliases.key_seq() =~= seq!["argMax"@]);
        assert(alias_table_view(aliases) =~= map!["argMax"@ => set!["argmax"@]]);
        aliases
    }
}

} // verus!
