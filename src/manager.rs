//! The collection of game templates: the built-in ones, and the user's custom templates,
//! which override built-ins of the same key.
use vstd::prelude::*;
use crate::catalog::{builtin_ids, builtin_ids_distinct, builtin_ok, get_builtin_games};
use crate::games::{GameConfig, GameType};

verus! {

broadcast use vstd::string::group_string_axioms;

/// The first template from `i` with key `k`; the length if none.
pub open spec fn game_index(gs: Seq<GameConfig>, k: Seq<char>, i: nat) -> nat
    decreases gs.len() - i,
{
    if i >= gs.len() {
        gs.len()
    } else if gs[i as int].game_type.0@ == k {
        i
    } else {
        game_index(gs, k, i + 1)
    }
}

/// Whether a template with key `k` is present.
pub open spec fn has_game(gs: Seq<GameConfig>, k: Seq<char>) -> bool {
    game_index(gs, k, 0) < gs.len()
}

/// No two templates share a key.
pub open spec fn unique_keys(gs: Seq<GameConfig>) -> bool {
    forall|i: int, j: int| 0 <= i < j < gs.len() ==> gs[i].game_type.0@ != gs[j].game_type.0@
}

pub proof fn lemma_game_index(gs: Seq<GameConfig>, k: Seq<char>, i: nat)
    requires
        i <= gs.len(),
    ensures
        i <= game_index(gs, k, i) <= gs.len(),
        game_index(gs, k, i) < gs.len() ==> gs[game_index(gs, k, i) as int].game_type.0@ == k,
        forall|m: int| i <= m < game_index(gs, k, i) ==> gs[m].game_type.0@ != k,
    decreases gs.len() - i,
{
    if i < gs.len() && gs[i as int].game_type.0@ != k {
        lemma_game_index(gs, k, i + 1);
    }
}

/// With unique keys, the template at `m` is the one found for its key.
pub proof fn lemma_game_index_at(gs: Seq<GameConfig>, m: int)
    requires
        unique_keys(gs),
        0 <= m < gs.len(),
    ensures
        game_index(gs, gs[m].game_type.0@, 0) == m,
{
    lemma_game_index(gs, gs[m].game_type.0@, 0);
}

/// Storing a template keeps keys unique, and its key is then present.
pub proof fn lemma_stored_unique(gs: Seq<GameConfig>, g: GameConfig)
    requires
        unique_keys(gs),
    ensures
        unique_keys(game_stored(gs, g)),
        has_game(game_stored(gs, g), g.game_type.0@),
{
    let k = g.game_type.0@;
    lemma_game_index(gs, k, 0);
    let j = game_index(gs, k, 0);
    let r = game_stored(gs, g);
    if j < gs.len() {
        assert forall|a: int, b: int| 0 <= a < b < r.len() implies r[a].game_type.0@ != r[b].game_type.0@ by {
            assert(r[a].game_type.0@ == gs[a].game_type.0@);
            assert(r[b].game_type.0@ == gs[b].game_type.0@);
        }
        lemma_game_index_at(r, j as int);
    } else {
        assert forall|a: int, b: int| 0 <= a < b < r.len() implies r[a].game_type.0@ != r[b].game_type.0@ by {
            if b < gs.len() {
                assert(r[a] == gs[a] && r[b] == gs[b]);
            } else {
                assert(r[a] == gs[a]);
            }
        }
        lemma_game_index_at(r, gs.len() as int);
    }
}

/// Removing the template found for `k` keeps keys unique and leaves none with key `k`.
pub proof fn lemma_removed_unique(gs: Seq<GameConfig>, k: Seq<char>)
    requires
        unique_keys(gs),
        has_game(gs, k),
    ensures
        unique_keys(gs.remove(game_index(gs, k, 0) as int)),
        !has_game(gs.remove(game_index(gs, k, 0) as int), k),
{
    lemma_game_index(gs, k, 0);
    let j = game_index(gs, k, 0) as int;
    let r = gs.remove(j);
    assert forall|a: int, b: int| 0 <= a < b < r.len() implies r[a].game_type.0@ != r[b].game_type.0@ by {
        let ea = if a < j { a } else { a + 1 };
        let eb = if b < j { b } else { b + 1 };
        assert(r[a] == gs[ea] && r[b] == gs[eb]);
    }
    lemma_game_index(r, k, 0);
    let x = game_index(r, k, 0) as int;
    if x < r.len() {
        let ex = if x < j { x } else { x + 1 };
        assert(r[x] == gs[ex]);
        assert(ex != j);
    }
}

/// The templates after storing `g`: a template of the same key is replaced in place, a new
/// key goes to the end.
pub open spec fn game_stored(gs: Seq<GameConfig>, g: GameConfig) -> Seq<GameConfig> {
    let j = game_index(gs, g.game_type.0@, 0);
    if j < gs.len() {
        gs.update(j as int, g)
    } else {
        gs.push(g)
    }
}

/// The templates after storing the first `n` of `gs`, in order.
pub open spec fn stored_upto(base: Seq<GameConfig>, gs: Seq<GameConfig>, n: int) -> Seq<GameConfig>
    decreases n,
{
    if n <= 0 {
        base
    } else {
        game_stored(stored_upto(base, gs, n - 1), gs[n - 1])
    }
}

/// The templates after storing, as custom, the storable ones among the first `n` of `gs`.
pub open spec fn imported_upto(base: Seq<GameConfig>, gs: Seq<GameConfig>, n: int) -> Seq<GameConfig>
    decreases n,
{
    if n <= 0 {
        base
    } else if storable(gs[n - 1]) {
        game_stored(imported_upto(base, gs, n - 1), GameConfig { is_custom: true, ..gs[n - 1] })
    } else {
        imported_upto(base, gs, n - 1)
    }
}

/// The built-in templates of the first `n` that no custom template overrides.
pub open spec fn unshadowed_upto(builtins: Seq<GameConfig>, customs: Seq<GameConfig>, n: int) -> Seq<GameConfig>
    decreases n,
{
    if n <= 0 {
        Seq::empty()
    } else if has_game(customs, builtins[n - 1].game_type.0@) {
        unshadowed_upto(builtins, customs, n - 1)
    } else {
        unshadowed_upto(builtins, customs, n - 1).push(builtins[n - 1])
    }
}

/// The built-in templates a listing keeps have unique keys, none overridden, each from
/// the first `n` built-ins.
pub proof fn lemma_unshadowed(b: Seq<GameConfig>, c: Seq<GameConfig>, n: int)
    requires
        unique_keys(b),
        0 <= n <= b.len(),
    ensures
        unique_keys(unshadowed_upto(b, c, n)),
        forall|k: int| 0 <= k < unshadowed_upto(b, c, n).len() ==>
            !has_game(c, (#[trigger] unshadowed_upto(b, c, n)[k]).game_type.0@)
            && game_index(b, unshadowed_upto(b, c, n)[k].game_type.0@, 0) < n,
    decreases n,
{
    if n > 0 {
        lemma_unshadowed(b, c, n - 1);
        let prev = unshadowed_upto(b, c, n - 1);
        if !has_game(c, b[n - 1].game_type.0@) {
            lemma_game_index_at(b, n - 1);
            let cur = unshadowed_upto(b, c, n);
            assert(cur == prev.push(b[n - 1]));
            assert forall|x: int, y: int| 0 <= x < y < cur.len() implies cur[x].game_type.0@ != cur[y].game_type.0@ by {
                assert(cur[x] == prev[x]);
                if y < prev.len() {
                    assert(cur[y] == prev[y]);
                } else {
                    assert(game_index(b, prev[x].game_type.0@, 0) < n - 1);
                }
            }
            assert forall|k: int| 0 <= k < cur.len() implies
                !has_game(c, (#[trigger] cur[k]).game_type.0@) && game_index(b, cur[k].game_type.0@, 0) < n by {
                if k < prev.len() {
                    assert(cur[k] == prev[k]);
                }
            }
        }
    }
}

/// Whether `a` sorts no later than `b` by code points.
pub open spec fn chars_le(a: Seq<char>, b: Seq<char>) -> bool
    decreases a.len(),
{
    if a.len() == 0 {
        true
    } else if b.len() == 0 {
        false
    } else if (a[0] as u32) != (b[0] as u32) {
        (a[0] as u32) < (b[0] as u32)
    } else {
        chars_le(a.drop_first(), b.drop_first())
    }
}

pub proof fn lemma_chars_le_total(a: Seq<char>, b: Seq<char>)
    ensures
        chars_le(a, b) || chars_le(b, a),
    decreases a.len(),
{
    if a.len() > 0 && b.len() > 0 && (a[0] as u32) == (b[0] as u32) {
        lemma_chars_le_total(a.drop_first(), b.drop_first());
    }
}

/// The listing order: built-in templates first, then by name.
pub open spec fn listed_before(a: GameConfig, b: GameConfig) -> bool {
    (!a.is_custom && b.is_custom) || (a.is_custom == b.is_custom && chars_le(a.name@, b.name@))
}

/// Each template sorts no later than the next.
pub open spec fn in_listing_order(gs: Seq<GameConfig>) -> bool {
    forall|i: int| 0 <= i < gs.len() - 1 ==> listed_before(#[trigger] gs[i], gs[i + 1])
}

/// Whether `a` sorts no later than `b` by code points.
pub fn chars_le_exec(a: &String, b: &String) -> (r: bool)
    ensures
        r == chars_le(a@, b@),
{
    let x = crate::text::chars_of(a.as_str());
    let y = crate::text::chars_of(b.as_str());
    let mut i: usize = 0;
    assert(x@.subrange(0, x@.len() as int) =~= x@);
    assert(y@.subrange(0, y@.len() as int) =~= y@);
    while i < x.len() && i < y.len() && (x[i] as u32) == (y[i] as u32)
        invariant
            i <= x.len(),
            i <= y.len(),
            chars_le(x@, y@) == chars_le(x@.subrange(i as int, x@.len() as int), y@.subrange(i as int, y@.len() as int)),
        decreases x.len() - i,
    {
        assert(x@.subrange(i as int, x@.len() as int).drop_first() =~= x@.subrange(i + 1, x@.len() as int));
        assert(y@.subrange(i as int, y@.len() as int).drop_first() =~= y@.subrange(i + 1, y@.len() as int));
        i = i + 1;
    }
    if i == x.len() {
        true
    } else if i == y.len() {
        false
    } else {
        (x[i] as u32) < (y[i] as u32)
    }
}

fn listed_before_exec(a: &GameConfig, b: &GameConfig) -> (r: bool)
    ensures
        r == listed_before(*a, *b),
{
    (!a.is_custom && b.is_custom) || (a.is_custom == b.is_custom && chars_le_exec(&a.name, &b.name))
}

/// Moving the last template into a list at any position keeps keys unique.
proof fn lemma_insert_keeps_unique(o: Seq<GameConfig>, rest: Seq<GameConfig>, x: GameConfig, p: int)
    requires
        unique_keys(o + rest.push(x)),
        0 <= p <= o.len(),
    ensures
        unique_keys(o.insert(p, x) + rest),
{
    let c = o + rest.push(x);
    let nw = o.insert(p, x) + rest;
    let n = c.len();
    assert forall|a: int, b: int| 0 <= a < b < nw.len() implies nw[a].game_type.0@ != nw[b].game_type.0@ by {
        let fa = if a < p { a } else if a == p { n - 1 } else { a - 1 };
        let fb = if b < p { b } else if b == p { n - 1 } else { b - 1 };
        assert(nw[a] == c[fa]);
        assert(nw[b] == c[fb]);
        assert(fa != fb);
        if fa < fb {
            assert(c[fa].game_type.0@ != c[fb].game_type.0@);
        } else {
            assert(c[fb].game_type.0@ != c[fa].game_type.0@);
        }
    }
}

/// Puts templates in listing order.
pub fn sort_for_listing(games: Vec<GameConfig>) -> (r: Vec<GameConfig>)
    ensures
        in_listing_order(r@),
        r@.to_multiset() == games@.to_multiset(),
        unique_keys(games@) ==> unique_keys(r@),
{
    broadcast use vstd::multiset::group_multiset_axioms;

    let ghost all = games@;
    let mut rest = games;
    let mut out: Vec<GameConfig> = Vec::new();
    assert(out@ + rest@ =~= all);
    proof {
        broadcast use vstd::seq_lib::to_multiset_len;
        assert(out@.to_multiset().len() == 0);
        assert(out@.to_multiset() =~= vstd::multiset::Multiset::<GameConfig>::empty());
    }
    while rest.len() > 0
        invariant
            in_listing_order(out@),
            out@.to_multiset().add(rest@.to_multiset()) == all.to_multiset(),
            unique_keys(all) ==> unique_keys(out@ + rest@),
        decreases rest.len(),
    {
        let ghost before = rest@;
        let x = rest.pop().unwrap();
        assert(before == rest@.push(x));
        let mut p: usize = 0;
        while p < out.len() && listed_before_exec(&out[p], &x)
            invariant
                p <= out.len(),
                p > 0 ==> listed_before(out@[p - 1], x),
            decreases out.len() - p,
        {
            p = p + 1;
        }
        let ghost o = out@;
        proof {
            if p < o.len() {
                lemma_chars_le_total(o[p as int].name@, x.name@);
                assert(listed_before(x, o[p as int]));
            }
        }
        out.insert(p, x);
        assert(out@ == o.insert(p as int, x));
        assert(in_listing_order(out@)) by {
            assert forall|i: int| 0 <= i < out@.len() - 1 implies listed_before(#[trigger] out@[i], out@[i + 1]) by {
                if i < p - 1 {
                    assert(out@[i] == o[i] && out@[i + 1] == o[i + 1]);
                } else if i == p - 1 {
                } else if i == p {
                    assert(out@[i + 1] == o[p as int]);
                } else {
                    assert(out@[i] == o[i - 1] && out@[i + 1] == o[i]);
                }
            }
        }
        proof {
            vstd::seq_lib::to_multiset_insert(o, p as int, x);
            vstd::seq_lib::to_multiset_build(rest@, x);
            assert(out@.to_multiset().add(rest@.to_multiset()) =~= o.to_multiset().add(before.to_multiset()));
            if unique_keys(all) {
                lemma_insert_keeps_unique(o, rest@, x, p as int);
            }
        }
    }
    proof {
        broadcast use vstd::seq_lib::to_multiset_len;
        assert(out@ + rest@ =~= out@);
        assert(rest@.to_multiset().len() == 0);
        assert(rest@.to_multiset() =~= vstd::multiset::Multiset::<GameConfig>::empty());
        assert(out@.to_multiset() =~= out@.to_multiset().add(rest@.to_multiset()));
    }
    out
}

/// Whether a template may be stored as custom: it has a key and an image.
pub open spec fn storable(g: GameConfig) -> bool {
    g.game_type.0@.len() > 0 && g.docker_image@.len() > 0
}

/// Built-in and custom game templates.
#[derive(Debug)]
pub struct GamesManager {
    builtin_games: Vec<GameConfig>,
    custom_games: Vec<GameConfig>,
}

fn find_game(gs: &Vec<GameConfig>, k: &String) -> (r: usize)
    ensures
        r == game_index(gs@, k@, 0),
{
    let mut i: usize = 0;
    while i < gs.len()
        invariant
            i <= gs.len(),
            game_index(gs@, k@, 0) == game_index(gs@, k@, i as nat),
        decreases gs.len() - i,
    {
        if gs[i].game_type.0 == *k {
            return i;
        }
        i = i + 1;
    }
    i
}

fn store_game(gs: &mut Vec<GameConfig>, g: GameConfig)
    ensures
        final(gs)@ == game_stored(old(gs)@, g),
{
    let j = find_game(gs, &g.game_type.0);
    if j < gs.len() {
        gs.set(j, g);
    } else {
        gs.push(g);
    }
}

impl GamesManager {
    /// The built-in templates, one per key.
    pub closed spec fn builtins(&self) -> Seq<GameConfig> {
        self.builtin_games@
    }

    /// The custom templates, one per key.
    pub closed spec fn customs(&self) -> Seq<GameConfig> {
        self.custom_games@
    }

    /// The templates a listing shows: built-ins without an override, then all custom ones.
    pub open spec fn visible(&self) -> Seq<GameConfig> {
        unshadowed_upto(self.builtins(), self.customs(), self.builtins().len() as int) + self.customs()
    }

    /// Whether `g` is a copy of a template that a listing shows.
    pub open spec fn shows(&self, g: GameConfig) -> bool {
        exists|j: int| 0 <= j < self.visible().len() && g.same(&self.visible()[j])
    }

    /// The store's invariant: one built-in template per key, and one custom template per key.
    pub open spec fn wf(&self) -> bool {
        unique_keys(self.builtins()) && unique_keys(self.customs())
    }

    /// A manager with the built-in templates, in catalog order, and no custom ones.
    pub fn new() -> (r: Self)
        ensures
            r.wf(),
            r.customs().len() == 0,
            r.builtins().len() == builtin_ids().len(),
            forall|i: int| 0 <= i < r.builtins().len() ==> (#[trigger] r.builtins()[i]).game_type.0@ == builtin_ids()[i] && builtin_ok(r.builtins()[i]),
            r.builtins()[0].recommended_ram_mb == 4096,
    {
        let builtin_games = get_builtin_games();
        proof {
            builtin_ids_distinct();
        }
        GamesManager { builtin_games, custom_games: Vec::new() }
    }

    /// Adds custom templates read from storage, in order, each replacing any of the same key.
    pub fn load_custom_games(&mut self, games: Vec<GameConfig>)
        requires
            old(self).wf(),
        ensures
            final(self).wf(),
            final(self).builtins() == old(self).builtins(),
            final(self).customs() == stored_upto(old(self).customs(), games@, games@.len() as int),
    {
        let ghost all = games@;
        let mut rest = games;
        let mut i: usize = 0;
        assert(rest.len() == all.len());
        while rest.len() > 0
            invariant
                i + rest@.len() == all.len(),
                all.len() <= usize::MAX,
                rest@ == all.subrange(i as int, all.len() as int),
                self.builtins() == old(self).builtins(),
                self.customs() == stored_upto(old(self).customs(), all, i as int),
                self.wf(),
            decreases rest.len(),
        {
            let g = rest.remove(0);
            assert(all[i as int] == g);
            proof {
                lemma_stored_unique(self.custom_games@, g);
            }
            store_game(&mut self.custom_games, g);
            i = i + 1;
            assert(rest@ =~= all.subrange(i as int, all.len() as int));
        }
    }

    /// Every template a user can pick, in listing order: built-ins first, then by name.
    pub fn get_all_games(&self) -> (r: Vec<GameConfig>)
        requires
            self.wf(),
        ensures
            unique_keys(r@),
            in_listing_order(r@),
            r@.len() == self.visible().len(),
            forall|i: int| 0 <= i < r@.len() ==> self.shows(#[trigger] r@[i]),
    {
        let ghost vis = self.visible();
        let ghost shown = unshadowed_upto(self.builtins(), self.customs(), self.builtins().len() as int);
        let mut games: Vec<GameConfig> = Vec::new();
        let mut i: usize = 0;
        while i < self.builtin_games.len()
            invariant
                i <= self.builtin_games.len(),
                games@.len() == unshadowed_upto(self.builtins(), self.customs(), i as int).len(),
                forall|k: int| 0 <= k < games@.len() ==> (#[trigger] games@[k]).same(&unshadowed_upto(self.builtins(), self.customs(), i as int)[k]),
            decreases self.builtin_games.len() - i,
        {
            let g = &self.builtin_games[i];
            if find_game(&self.custom_games, &g.game_type.0) >= self.custom_games.len() {
                games.push(g.clone());
            }
            i = i + 1;
        }
        let mut c: usize = 0;
        while c < self.custom_games.len()
            invariant
                c <= self.custom_games.len(),
                shown == unshadowed_upto(self.builtins(), self.customs(), self.builtins().len() as int),
                vis == shown + self.customs(),
                games@.len() == shown.len() + c,
                forall|k: int| 0 <= k < games@.len() ==> (#[trigger] games@[k]).same(&vis[k]),
            decreases self.custom_games.len() - c,
        {
            games.push(self.custom_games[c].clone());
            c = c + 1;
        }
        let ghost copies = games@;
        proof {
            lemma_unshadowed(self.builtins(), self.customs(), self.builtins().len() as int);
            assert forall|x: int, y: int| 0 <= x < y < copies.len() implies copies[x].game_type.0@ != copies[y].game_type.0@ by {
                assert(copies[x].same(&vis[x]) && copies[y].same(&vis[y]));
                if y < shown.len() {
                    assert(vis[x] == shown[x] && vis[y] == shown[y]);
                } else if x >= shown.len() {
                    assert(vis[x] == self.customs()[x - shown.len()]);
                    assert(vis[y] == self.customs()[y - shown.len()]);
                } else {
                    assert(vis[x] == shown[x]);
                    assert(vis[y] == self.customs()[y - shown.len()]);
                    lemma_game_index_at(self.customs(), y - shown.len());
                    assert(!has_game(self.customs(), shown[x].game_type.0@));
                }
            }
        }
        let r = sort_for_listing(games);
        proof {
            assert forall|i: int| 0 <= i < r@.len() implies self.shows(#[trigger] r@[i]) by {
                vstd::seq_lib::to_multiset_contains(r@, r@[i]);
                vstd::seq_lib::to_multiset_contains(copies, r@[i]);
                assert(r@.contains(r@[i]));
                let j = choose|j: int| 0 <= j < copies.len() && copies[j] == r@[i];
                assert(copies[j].same(&vis[j]));
                assert(r@[i].same(&vis[j]));
            }
            assert(vis == self.visible());
            broadcast use vstd::seq_lib::to_multiset_len;
            assert(r@.len() == r@.to_multiset().len());
        }
        r
    }

    /// The template of a key: a custom one overrides a built-in one.
    pub fn get_game(&self, game_type: &GameType) -> (r: Option<GameConfig>)
        ensures
            r.is_some() == (has_game(self.customs(), game_type.0@) || has_game(self.builtins(), game_type.0@)),
            has_game(self.customs(), game_type.0@) ==> r.unwrap().same(&self.customs()[game_index(self.customs(), game_type.0@, 0) as int]),
            !has_game(self.customs(), game_type.0@) && has_game(self.builtins(), game_type.0@) ==> r.unwrap().same(&self.builtins()[game_index(self.builtins(), game_type.0@, 0) as int]),
    {
        let c = find_game(&self.custom_games, &game_type.0);
        if c < self.custom_games.len() {
            return Some(self.custom_games[c].clone());
        }
        let b = find_game(&self.builtin_games, &game_type.0);
        if b < self.builtin_games.len() {
            Some(self.builtin_games[b].clone())
        } else {
            None
        }
    }

    /// Stores a new custom template; the key and the image must not be empty.
    pub fn add_game(&mut self, game: GameConfig) -> (r: Result<(), String>)
        requires
            old(self).wf(),
        ensures
            final(self).wf(),
            r is Ok ==> has_game(final(self).customs(), game.game_type.0@),
            r is Ok <==> storable(game),
            game.game_type.0@.len() == 0 ==> r->Err_0@ == "Game ID cannot be empty"@,
            game.game_type.0@.len() > 0 && game.docker_image@.len() == 0 ==> r->Err_0@ == "Docker image cannot be empty"@,
            final(self).builtins() == old(self).builtins(),
            r is Ok ==> final(self).customs() == game_stored(old(self).customs(), GameConfig { is_custom: true, ..game }),
            r is Err ==> final(self).customs() == old(self).customs(),
    {
        if game.game_type.0.as_str().is_empty() {
            return Err("Game ID cannot be empty".to_string());
        }
        if game.docker_image.as_str().is_empty() {
            return Err("Docker image cannot be empty".to_string());
        }
        let game = GameConfig { is_custom: true, ..game };
        proof {
            lemma_stored_unique(self.custom_games@, game);
        }
        store_game(&mut self.custom_games, game);
        Ok(())
    }

    /// Stores a changed template as custom, which overrides a built-in one of the same key;
    /// the key must already be known.
    pub fn update_game(&mut self, game: GameConfig) -> (r: Result<(), String>)
        requires
            old(self).wf(),
        ensures
            final(self).wf(),
            r is Ok ==> has_game(final(self).customs(), game.game_type.0@),
            r is Ok <==> (has_game(old(self).builtins(), game.game_type.0@) || has_game(old(self).customs(), game.game_type.0@)),
            r is Err ==> r->Err_0@ == "Game not found"@ && final(self).customs() == old(self).customs(),
            final(self).builtins() == old(self).builtins(),
            r is Ok ==> final(self).customs() == game_stored(old(self).customs(), GameConfig { is_custom: true, ..game }),
    {
        let known = find_game(&self.builtin_games, &game.game_type.0) < self.builtin_games.len()
            || find_game(&self.custom_games, &game.game_type.0) < self.custom_games.len();
        if !known {
            return Err("Game not found".to_string());
        }
        let game = GameConfig { is_custom: true, ..game };
        proof {
            lemma_stored_unique(self.custom_games@, game);
        }
        store_game(&mut self.custom_games, game);
        Ok(())
    }

    /// Deletes a custom template; built-in ones cannot be deleted.
    pub fn delete_game(&mut self, game_type: &GameType) -> (r: Result<(), String>)
        requires
            old(self).wf(),
        ensures
            final(self).wf(),
            !has_game(final(self).customs(), game_type.0@),
            r is Ok <==> has_game(old(self).customs(), game_type.0@),
            r is Ok ==> final(self).customs() == old(self).customs().remove(game_index(old(self).customs(), game_type.0@, 0) as int),
            r is Err ==> final(self).customs() == old(self).customs(),
            r is Err && has_game(old(self).builtins(), game_type.0@) ==> r->Err_0@ == "Cannot delete built-in games. Edit it to create an override, or reset to defaults."@,
            r is Err && !has_game(old(self).builtins(), game_type.0@) ==> r->Err_0@ == "Game not found"@,
            final(self).builtins() == old(self).builtins(),
    {
        let c = find_game(&self.custom_games, &game_type.0);
        if c >= self.custom_games.len() {
            if find_game(&self.builtin_games, &game_type.0) < self.builtin_games.len() {
                return Err("Cannot delete built-in games. Edit it to create an override, or reset to defaults.".to_string());
            }
            return Err("Game not found".to_string());
        }
        proof {
            lemma_removed_unique(self.custom_games@, game_type.0@);
        }
        self.custom_games.remove(c);
        Ok(())
    }

    /// Stores a template read from an import as custom, after the same checks as `add_game`,
    /// and hands back what was stored.
    pub fn import_game(&mut self, game: GameConfig) -> (r: Result<GameConfig, String>)
        requires
            old(self).wf(),
        ensures
            final(self).wf(),
            r is Ok <==> storable(game),
            game.game_type.0@.len() == 0 ==> r->Err_0@ == "Game ID cannot be empty"@,
            game.game_type.0@.len() > 0 && game.docker_image@.len() == 0 ==> r->Err_0@ == "Docker image cannot be empty"@,
            r is Ok ==> r->Ok_0.same_but_custom(&game) && r->Ok_0.is_custom,
            final(self).builtins() == old(self).builtins(),
    {
        let game = GameConfig { is_custom: true, ..game };
        if game.game_type.0.as_str().is_empty() {
            return Err("Game ID cannot be empty".to_string());
        }
        if game.docker_image.as_str().is_empty() {
            return Err("Docker image cannot be empty".to_string());
        }
        let copy = game.clone();
        proof {
            lemma_stored_unique(self.custom_games@, game);
        }
        store_game(&mut self.custom_games, game);
        Ok(copy)
    }

    /// Stores each storable template of an import as custom, in order; the others are
    /// skipped. Hands back what was stored.
    pub fn import_games(&mut self, games: Vec<GameConfig>) -> (r: Vec<GameConfig>)
        requires
            old(self).wf(),
        ensures
            final(self).wf(),
            forall|i: int| 0 <= i < r@.len() ==> storable(#[trigger] r@[i]) && r@[i].is_custom,
            final(self).builtins() == old(self).builtins(),
            final(self).customs() == imported_upto(old(self).customs(), games@, games@.len() as int),
    {
        let ghost all = games@;
        let mut rest = games;
        let mut i: usize = 0;
        assert(rest.len() == all.len());
        let mut imported: Vec<GameConfig> = Vec::new();
        while rest.len() > 0
            invariant
                i + rest@.len() == all.len(),
                all.len() <= usize::MAX,
                rest@ == all.subrange(i as int, all.len() as int),
                self.builtins() == old(self).builtins(),
                self.customs() == imported_upto(old(self).customs(), all, i as int),
                self.wf(),
                forall|k: int| 0 <= k < imported@.len() ==> storable(#[trigger] imported@[k]) && imported@[k].is_custom,
            decreases rest.len(),
        {
            let g = rest.remove(0);
            assert(all[i as int] == g);
            let g = GameConfig { is_custom: true, ..g };
            if !g.game_type.0.as_str().is_empty() && !g.docker_image.as_str().is_empty() {
                let copy = g.clone();
                proof {
                    lemma_stored_unique(self.custom_games@, g);
                }
                store_game(&mut self.custom_games, g);
                imported.push(copy);
            }
            i = i + 1;
            assert(rest@ =~= all.subrange(i as int, all.len() as int));
        }
        imported
    }

    /// Copies of the custom templates, for export.
    pub fn custom_games(&self) -> (r: Vec<GameConfig>)
        ensures
            r@.len() == self.customs().len(),
            forall|i: int| 0 <= i < r@.len() ==> (#[trigger] r@[i]).same(&self.customs()[i]),
    {
        let mut r: Vec<GameConfig> = Vec::new();
        let mut i: usize = 0;
        while i < self.custom_games.len()
            invariant
                i <= self.custom_games.len(),
                r@.len() == i,
                forall|k: int| 0 <= k < i ==> (#[trigger] r@[k]).same(&self.customs()[k]),
            decreases self.custom_games.len() - i,
        {
            r.push(self.custom_games[i].clone());
            i = i + 1;
        }
        r
    }

    /// Drops every custom template.
    pub fn reset_to_defaults(&mut self) -> (r: Result<(), String>)
        requires
            old(self).wf(),
        ensures
            final(self).wf(),
            r is Ok,
            final(self).customs().len() == 0,
            final(self).builtins() == old(self).builtins(),
    {
        self.custom_games.clear();
        Ok(())
    }
}

} // verus!
