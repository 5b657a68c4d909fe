use vstd::prelude::*;

verus! {

broadcast use vstd::seq_lib::group_seq_properties;

/// How many database paths the recent list keeps when a new one is added.
pub const MAX_RECENT: usize = 10;

/// The database settings: the database in use and the recently used ones,
/// most recent first.
#[derive(Debug, Clone)]
pub struct DatabaseSettings {
    pub path: String,
    pub recent: Vec<String>,
}

/// The application settings.
#[derive(Debug, Clone)]
pub struct Settings {
    pub database: DatabaseSettings,
}

/// The mathematical value of the settings.
pub struct SettingsView {
    pub path: Seq<char>,
    pub recent: Seq<Seq<char>>,
}

/// The texts of a list of strings.
pub open spec fn texts(v: Seq<String>) -> Seq<Seq<char>> {
    v.map_values(|s: String| s@)
}

impl View for Settings {
    type V = SettingsView;

    open spec fn view(&self) -> SettingsView {
        SettingsView { path: self.database.path@, recent: texts(self.database.recent@) }
    }
}

/// The path of the database that is used when nothing else was chosen.
pub open spec fn default_database() -> Seq<char> {
    "inventory.sqlite3"@
}

/// The settings before anything was chosen: the default database, which is
/// also the only recent one.
pub open spec fn default_settings() -> SettingsView {
    SettingsView { path: default_database(), recent: seq![default_database()] }
}

/// Keeps every path but `p`.
pub open spec fn other_than(p: Seq<char>) -> spec_fn(Seq<char>) -> bool {
    |q: Seq<char>| q != p
}

/// The recent list after `p` was chosen: a new path goes in front and, when
/// the list then holds more than `MAX_RECENT` paths, the oldest one goes;
/// a known path moves to the front.
pub open spec fn recent_after(recent: Seq<Seq<char>>, p: Seq<char>) -> Seq<Seq<char>> {
    if !recent.contains(p) {
        let r = seq![p] + recent;
        if r.len() > MAX_RECENT {
            r.drop_last()
        } else {
            r
        }
    } else {
        seq![p] + recent.filter(other_than(p))
    }
}

/// The settings after the database `p` was chosen.
pub open spec fn choose_database(s: SettingsView, p: Seq<char>) -> SettingsView {
    SettingsView { path: p, recent: recent_after(s.recent, p) }
}

/// Settings that the application keeps in shape: the recent list holds each
/// path once, at most `MAX_RECENT` of them, and the database in use first.
pub open spec fn well_formed(s: SettingsView) -> bool {
    &&& s.recent.no_duplicates()
    &&& s.recent.len() <= MAX_RECENT
    &&& s.recent.len() > 0
    &&& s.recent[0] == s.path
}

impl Default for Settings {
    fn default() -> (r: Settings)
        ensures
            r@ == default_settings(),
    {
        let mut recent: Vec<String> = Vec::new();
        recent.push(String::from_str("inventory.sqlite3"));
        let r = Settings {
            database: DatabaseSettings { path: String::from_str("inventory.sqlite3"), recent },
        };
        assert(r@.recent =~= default_settings().recent);
        r
    }
}

/// Whether one of the strings has the text `p`.
fn contains_text(v: &Vec<String>, p: &String) -> (r: bool)
    ensures
        r == texts(v@).contains(p@),
{
    let mut i: usize = 0;
    while i < v.len()
        invariant
            i <= v@.len(),
            forall|j: int| 0 <= j < i ==> v@[j]@ != p@,
        decreases v@.len() - i,
    {
        if v[i] == *p {
            assert(texts(v@)[i as int] == p@);
            return true;
        }
        i = i + 1;
    }
    assert forall|j: int| 0 <= j < texts(v@).len() implies texts(v@)[j] != p@ by {
        assert(texts(v@)[j] == v@[j]@);
    }
    false
}

/// The strings whose text is not `p`, in their order.
fn without_text(v: &Vec<String>, p: &String) -> (r: Vec<String>)
    ensures
        texts(r@) == texts(v@).filter(other_than(p@)),
{
    let mut r: Vec<String> = Vec::new();
    let mut i: usize = 0;
    while i < v.len()
        invariant
            i <= v@.len(),
            texts(r@) == texts(v@.take(i as int)).filter(other_than(p@)),
        decreases v@.len() - i,
    {
        assert(texts(v@.take(i + 1)) =~= texts(v@.take(i as int)).push(v@[i as int]@));
        proof {
            texts(v@.take(i as int)).lemma_filter_push(v@[i as int]@, other_than(p@));
        }
        if !(v[i] == *p) {
            r.push(v[i].clone());
        }
        assert(texts(r@) =~= texts(v@.take(i + 1)).filter(other_than(p@)));
        i = i + 1;
    }
    assert(v@.take(v@.len() as int) =~= v@);
    r
}

impl Settings {
    /// Switches to the database at `path` and records it as the most recent
    /// one: a new path goes in front of the recent list, which then drops its
    /// oldest entry if it holds more than `MAX_RECENT`; a known path moves to
    /// the front.
    pub fn set_database_path(&mut self, path: String)
        ensures
            final(self)@ == choose_database(old(self)@, path@),
    {
        self.database.path = path.clone();
        if !contains_text(&self.database.recent, &path) {
            self.database.recent.insert(0, path);
            if self.database.recent.len() > MAX_RECENT {
                self.database.recent.pop();
            }
        } else {
            let mut kept = without_text(&self.database.recent, &path);
            kept.insert(0, path);
            self.database.recent = kept;
        }
        assert(texts(self.database.recent@) =~= recent_after(old(self)@.recent, path@));
    }

    /// The path of the database in use.
    pub fn get_database_path(&self) -> (r: &str)
        ensures
            r@ == self@.path,
    {
        self.database.path.as_str()
    }
}


/// Filtering out `p` keeps a list free of duplicates, keeps every other
/// entry, never keeps `p`, and leaves a list without `p` as it was; the result
/// is shorter when `p` was in the list.
proof fn lemma_without(r: Seq<Seq<char>>, p: Seq<char>)
    ensures
        r.no_duplicates() ==> r.filter(other_than(p)).no_duplicates(),
        !r.filter(other_than(p)).contains(p),
        forall|q: Seq<char>| #[trigger] r.contains(q) && q != p ==> r.filter(other_than(p)).contains(q),
        forall|q: Seq<char>| #[trigger] r.filter(other_than(p)).contains(q) ==> r.contains(q),
        !r.contains(p) ==> r.filter(other_than(p)) == r,
        r.contains(p) ==> r.filter(other_than(p)).len() < r.len(),
        r.filter(other_than(p)).len() <= r.len(),
    decreases r.len(),
{
    reveal(Seq::filter);
    let f = r.filter(other_than(p));
    if r.len() > 0 {
        let rest = r.drop_last();
        lemma_without(rest, p);
        let fr = rest.filter(other_than(p));
        assert(r =~= rest.push(r.last()));
        assert forall|q: Seq<char>| #[trigger] r.contains(q) && q != p implies f.contains(q) by {
            if q == r.last() {
                assert(f[f.len() - 1] == q);
            } else {
                let k = choose|k: int| 0 <= k < r.len() && r[k] == q;
                assert(rest[k] == q);
                assert(rest.contains(q));
                let m = choose|m: int| 0 <= m < fr.len() && fr[m] == q;
                assert(f[m] == q);
            }
        }
        assert forall|q: Seq<char>| #[trigger] f.contains(q) implies r.contains(q) by {
            let m = choose|m: int| 0 <= m < f.len() && f[m] == q;
            if m == fr.len() {
                assert(r[r.len() - 1] == q);
            } else {
                assert(fr[m] == q);
                assert(fr.contains(q));
                let k = choose|k: int| 0 <= k < rest.len() && rest[k] == q;
                assert(r[k] == q);
            }
        }
        if r.no_duplicates() {
            assert(rest.no_duplicates());
            if r.last() != p {
                assert(!rest.contains(r.last()));
                assert(!fr.contains(r.last()));
                assert(f =~= fr.push(r.last()));
            }
        }
        if !r.contains(p) {
            assert(!rest.contains(p));
            assert(r.last() != p);
        }
        if r.contains(p) && !rest.contains(p) {
            assert(r.last() == p);
        }
    }
}

/// The settings before anything was chosen are in shape.
pub proof fn lemma_default_well_formed()
    ensures
        well_formed(default_settings()),
{
}

/// Choosing a database makes it the one in use, puts it first in the recent
/// list and keeps it there only once, whatever the list held before.
pub proof fn lemma_choose_database_reads_back(s: SettingsView, p: Seq<char>)
    ensures
        choose_database(s, p).path == p,
        choose_database(s, p).recent.len() > 0,
        choose_database(s, p).recent[0] == p,
        !choose_database(s, p).recent.drop_first().contains(p),
{
    let r = s.recent;
    let n = choose_database(s, p).recent;
    if !r.contains(p) {
        assert forall|i: int| 0 <= i < n.drop_first().len() implies n.drop_first()[i] != p by {
            assert(n.drop_first()[i] == r[i]);
        }
    } else {
        lemma_without(r, p);
        assert(n.drop_first() =~= r.filter(other_than(p)));
    }
}

/// Choosing a database keeps settings in shape: each path once, at most
/// `MAX_RECENT` of them, the database in use first.
pub proof fn lemma_choose_database_well_formed(s: SettingsView, p: Seq<char>)
    requires
        well_formed(s),
    ensures
        well_formed(choose_database(s, p)),
{
    let r = s.recent;
    let n = choose_database(s, p).recent;
    lemma_choose_database_reads_back(s, p);
    lemma_without(r, p);
    assert forall|i: int, j: int| 0 <= i < n.len() && 0 <= j < n.len() && i != j implies n[i]
        != n[j] by {
        if i > 0 && j > 0 {
            if !r.contains(p) {
                assert(n[i] == r[i - 1] && n[j] == r[j - 1]);
            } else {
                let f = r.filter(other_than(p));
                assert(n[i] == f[i - 1] && n[j] == f[j - 1]);
            }
        } else if i == 0 {
            assert(n.drop_first()[j - 1] == n[j]);
        } else {
            assert(n.drop_first()[i - 1] == n[i]);
        }
    }
}

/// Choosing the same database twice gives the same settings as choosing it once.
pub proof fn lemma_choose_database_idempotent(s: SettingsView, p: Seq<char>)
    ensures
        choose_database(choose_database(s, p), p) == choose_database(s, p),
{
    let once = choose_database(s, p);
    lemma_choose_database_reads_back(s, p);
    let rest = once.recent.drop_first();
    assert(once.recent.contains(p));
    assert(once.recent =~= seq![p] + rest);
    Seq::filter_distributes_over_add(seq![p], rest, other_than(p));
    assert((seq![p] + rest).filter(other_than(p)) == seq![p].filter(other_than(p)) + rest.filter(
        other_than(p),
    ));
    reveal(Seq::filter);
    assert(seq![p].drop_last() =~= Seq::<Seq<char>>::empty());
    assert(Seq::<Seq<char>>::empty().filter(other_than(p)) =~= Seq::<Seq<char>>::empty());
    assert(!(other_than(p))(p));
    assert(seq![p].last() == p);
    assert(seq![p].filter(other_than(p)) =~= Seq::<Seq<char>>::empty());
    lemma_without(rest, p);
    assert(recent_after(once.recent, p) =~= once.recent);
}

/// Choosing a database loses no other recent path, except the oldest one
/// when a new path is added to a list that is already full.
pub proof fn lemma_choose_database_keeps_others(s: SettingsView, p: Seq<char>, q: Seq<char>)
    requires
        s.recent.contains(q),
        q != p,
    ensures
        choose_database(s, p).recent.contains(q) || (!s.recent.contains(p) && s.recent.len()
            >= MAX_RECENT && q == s.recent.last()),
{
    let r = s.recent;
    let n = choose_database(s, p).recent;
    if !r.contains(p) {
        let k = choose|k: int| 0 <= k < r.len() && r[k] == q;
        if k + 1 < n.len() {
            assert(n[k + 1] == q);
        }
    } else {
        lemma_without(r, p);
        let f = r.filter(other_than(p));
        let m = choose|m: int| 0 <= m < f.len() && f[m] == q;
        assert(n[m + 1] == q);
    }
}

} // verus!
