//! Runtime state for tracking the currently loaded project and mounts.
//!
//! Mounts map a mount point id (such as "Cartridge" or "FloppyA") to a file path;
//! they live only while the emulator runs and are not written to config.json.
use vstd::prelude::*;
use vstd::string::*;

use crate::settings::InputConfig;
use crate::text::{chars_of, str_eq};

verus! {

/// Mount entries hold each mount id at most once.
pub open spec fn unique_ids(v: Seq<(String, String)>) -> bool {
    forall|i: int, j: int| 0 <= i < j < v.len() ==> v[i].0@ != v[j].0@
}

/// The mounts as a map from mount id to file path.
pub open spec fn mounts_map(v: Seq<(String, String)>) -> Map<Seq<char>, Seq<char>>
    decreases v.len(),
{
    if v.len() == 0 {
        Map::empty()
    } else {
        mounts_map(v.drop_last()).insert(v.last().0@, v.last().1@)
    }
}

proof fn lemma_mounts_map_contains(v: Seq<(String, String)>, k: Seq<char>)
    ensures
        mounts_map(v).contains_key(k) <==> exists|i: int| 0 <= i < v.len() && v[i].0@ == k,
    decreases v.len(),
{
    if v.len() > 0 {
        lemma_mounts_map_contains(v.drop_last(), k);
        if mounts_map(v).contains_key(k) && v.last().0@ != k {
            let i = choose|i: int| 0 <= i < v.len() - 1 && v.drop_last()[i].0@ == k;
            assert(v[i].0@ == k);
        }
        if exists|i: int| 0 <= i < v.len() && v[i].0@ == k {
            let i = choose|i: int| 0 <= i < v.len() && v[i].0@ == k;
            if i < v.len() - 1 {
                assert(v.drop_last()[i].0@ == k);
            }
        }
    }
}

proof fn lemma_mounts_map_value(v: Seq<(String, String)>, i: int)
    requires
        unique_ids(v),
        0 <= i < v.len(),
    ensures
        mounts_map(v).contains_key(v[i].0@),
        mounts_map(v)[v[i].0@] == v[i].1@,
    decreases v.len(),
{
    if i < v.len() - 1 {
        assert(v.drop_last()[i] == v[i]);
        lemma_mounts_map_value(v.drop_last(), i);
    }
}

proof fn lemma_mounts_map_update(v: Seq<(String, String)>, i: int, e: (String, String))
    requires
        unique_ids(v),
        0 <= i < v.len(),
        e.0@ == v[i].0@,
    ensures
        mounts_map(v.update(i, e)) == mounts_map(v).insert(e.0@, e.1@),
    decreases v.len(),
{
    let w = v.update(i, e);
    if i == v.len() - 1 {
        assert(w.drop_last() =~= v.drop_last());
        lemma_mounts_map_contains(v.drop_last(), e.0@);
        assert(mounts_map(v).insert(e.0@, e.1@) =~= mounts_map(v.drop_last()).insert(e.0@, e.1@));
    } else {
        assert(w.drop_last() =~= v.drop_last().update(i, e));
        lemma_mounts_map_update(v.drop_last(), i, e);
        assert(mounts_map(w) =~= mounts_map(v).insert(e.0@, e.1@));
    }
}

/// The last path component that names a file or directory: components are
/// separated by '/', and empty and "." components are skipped; a path whose last
/// such component is ".." (or that has none) has no file name.
pub open spec fn file_name(path: Seq<char>) -> Option<Seq<char>> {
    let last = last_component(path, path.len() as int);
    match last {
        Some(c) => if c == seq!['.', '.'] {
            None
        } else {
            Some(c)
        },
        None => None,
    }
}

/// The last component of `path.take(end)` that is neither empty nor ".".
pub open spec fn last_component(path: Seq<char>, end: int) -> Option<Seq<char>>
    decreases end,
{
    if end <= 0 {
        None
    } else {
        let start = segment_start(path, end);
        let seg = path.subrange(start, end);
        if seg.len() != 0 && seg != seq!['.'] {
            Some(seg)
        } else {
            if start == 0 {
                None
            } else {
                proof {
                    lemma_segment_start_le(path, end);
                }
                last_component(path, start - 1)
            }
        }
    }
}

/// The start of the segment that ends at `end` (just after the '/' before it).
pub open spec fn segment_start(path: Seq<char>, end: int) -> int
    decreases end,
{
    if end <= 0 {
        0
    } else if path[end - 1] == '/' {
        end
    } else {
        segment_start(path, end - 1)
    }
}

pub proof fn lemma_segment_start_le(path: Seq<char>, end: int)
    requires
        end >= 0,
    ensures
        0 <= segment_start(path, end) <= end,
    decreases end,
{
    if end > 0 && path[end - 1] != '/' {
        lemma_segment_start_le(path, end - 1);
    }
}

/// The mount points that a project of `system` records (the others are left out).
pub open spec fn project_mount_ids(system: Seq<char>) -> Seq<Seq<char>> {
    if system == "pc"@ {
        seq!["BIOS"@, "FloppyA"@, "FloppyB"@, "HardDrive"@]
    } else if system == "atari5200"@ {
        seq!["BIOS"@, "Cartridge"@]
    } else if system == "nes"@ || system == "gameboy"@ || system == "gba"@ || system
        == "atari2600"@ || system == "snes"@ || system == "n64"@ || system == "megadrive"@ {
        seq!["Cartridge"@]
    } else {
        Seq::empty()
    }
}

/// The mount ids that a project of `system` records.
pub fn project_mount_ids_exec(system: &str) -> (ids: Vec<&'static str>)
    ensures
        ids@.map_values(|id: &str| id@) == project_mount_ids(system@),
{
    let mut ids: Vec<&'static str> = Vec::new();
    if str_eq(system, "pc") {
        ids.push("BIOS");
        ids.push("FloppyA");
        ids.push("FloppyB");
        ids.push("HardDrive");
    } else if str_eq(system, "atari5200") {
        ids.push("BIOS");
        ids.push("Cartridge");
    } else if str_eq(system, "nes") || str_eq(system, "gameboy") || str_eq(system, "gba")
        || str_eq(system, "atari2600") || str_eq(system, "snes") || str_eq(system, "n64")
        || str_eq(system, "megadrive") {
        ids.push("Cartridge");
    }
    assert(ids@.map_values(|id: &str| id@) =~= project_mount_ids(system@));
    ids
}

/// Is `id` one of `ids`?
fn contains_id(ids: &Vec<&'static str>, id: &str) -> (b: bool)
    ensures
        b == ids@.map_values(|x: &str| x@).contains(id@),
{
    let ghost views = ids@.map_values(|x: &str| x@);
    let mut i: usize = 0;
    while i < ids.len()
        invariant
            i <= ids@.len(),
            views == ids@.map_values(|x: &str| x@),
            forall|j: int| 0 <= j < i ==> views[j] != id@,
        decreases ids@.len() - i,
    {
        if str_eq(ids[i], id) {
            assert(views[i as int] == id@);
            return true;
        }
        i += 1;
    }
    false
}

/// The mounts kept by a filter on mount ids, in order.
pub open spec fn kept_mounts(v: Seq<(String, String)>, keep: Set<Seq<char>>) -> Seq<(String, String)>
    decreases v.len(),
{
    if v.len() == 0 {
        Seq::empty()
    } else if keep.contains(v.last().0@) {
        kept_mounts(v.drop_last(), keep).push(v.last())
    } else {
        kept_mounts(v.drop_last(), keep)
    }
}

proof fn lemma_kept_mounts(v: Seq<(String, String)>, keep: Set<Seq<char>>)
    requires
        unique_ids(v),
    ensures
        unique_ids(kept_mounts(v, keep)),
        mounts_map(kept_mounts(v, keep)) == mounts_map(v).restrict(keep),
        forall|j: int|
            0 <= j < kept_mounts(v, keep).len() ==> exists|i: int|
                0 <= i < v.len() && #[trigger] kept_mounts(v, keep)[j] == v[i],
    decreases v.len(),
{
    if v.len() > 0 {
        let w = v.drop_last();
        assert(unique_ids(w));
        lemma_kept_mounts(w, keep);
        let kw = kept_mounts(w, keep);
        let e = v.last();
        assert forall|j: int| 0 <= j < kw.len() implies exists|i: int|
            0 <= i < v.len() && #[trigger] kw[j] == v[i] by {
            let i = choose|i: int| 0 <= i < w.len() && kw[j] == w[i];
            assert(v[i] == w[i]);
        }
        if keep.contains(e.0@) {
            let k = kw.push(e);
            assert(k.drop_last() =~= kw);
            assert forall|a: int, b: int| 0 <= a < b < k.len() implies k[a].0@ != k[b].0@ by {
                if b == k.len() - 1 {
                    let i = choose|i: int| 0 <= i < w.len() && #[trigger] kw[a] == w[i];
                    assert(v[i] == w[i]);
                    assert(k[a] == kw[a]);
                } else {
                    assert(k[a] == kw[a]);
                    assert(k[b] == kw[b]);
                }
            }
            assert forall|j: int| 0 <= j < k.len() implies exists|i: int|
                0 <= i < v.len() && #[trigger] k[j] == v[i] by {
                if j == k.len() - 1 {
                    assert(k[j] == v[v.len() - 1]);
                } else {
                    assert(k[j] == kw[j]);
                }
            }
            assert(mounts_map(k) =~= mounts_map(v).restrict(keep));
        } else {
            assert(mounts_map(kw) =~= mounts_map(v).restrict(keep));
        }
    }
}

/// The video mode that a project records for a PC video adapter: "VGA" when the
/// adapter's name mentions VGA, else "EGA" when it mentions EGA, else "CGA".
pub open spec fn video_mode(adapter: Seq<char>) -> Seq<char> {
    if contains_text(adapter, "VGA"@) {
        "VGA"@
    } else if contains_text(adapter, "EGA"@) {
        "EGA"@
    } else {
        "CGA"@
    }
}

/// `part` occurs in `s`.
pub open spec fn contains_text(s: Seq<char>, part: Seq<char>) -> bool {
    exists|i: int| 0 <= i && i + part.len() <= s.len() && #[trigger] s.subrange(i, i + part.len()) == part
}

/// Does `part` occur in `s`?
pub fn contains_text_exec(s: &str, part: &str) -> (b: bool)
    ensures
        b == contains_text(s@, part@),
{
    let cs = chars_of(s);
    let cp = chars_of(part);
    if cp.len() > cs.len() {
        return false;
    }
    let mut i: usize = 0;
    while i <= cs.len() - cp.len()
        invariant
            cs@ == s@,
            cp@ == part@,
            cp@.len() <= cs@.len(),
            i <= cs@.len() - cp@.len() + 1,
            forall|k: int| 0 <= k < i ==> #[trigger] s@.subrange(k, k + part@.len()) != part@,
        decreases cs@.len() - cp@.len() + 1 - i,
    {
        let mut j: usize = 0;
        let mut same = true;
        assert(cs@.len() == cs.len());
        while j < cp.len()
            invariant
                cs@ == s@,
                cp@ == part@,
                i + cp@.len() <= cs@.len(),
                cs@.len() <= usize::MAX,
                j <= cp@.len(),
                same == forall|t: int| 0 <= t < j ==> cs@[i + t] == cp@[t],
            decreases cp@.len() - j,
        {
            if cs[i + j] != cp[j] {
                same = false;
            }
            j += 1;
        }
        if same {
            assert(s@.subrange(i as int, i + part@.len()) =~= part@);
            return true;
        }
        assert(s@.subrange(i as int, i + part@.len()) != part@) by {
            let t = choose|t: int| 0 <= t < cp@.len() && cs@[i + t] != cp@[t];
            assert(s@.subrange(i as int, i + part@.len())[t] == cs@[i + t]);
        }
        i += 1;
    }
    false
}

/// The video mode name for a PC video adapter name.
pub fn video_mode_name(adapter: &str) -> (mode: &'static str)
    ensures
        mode@ == video_mode(adapter@),
{
    if contains_text_exec(adapter, "VGA") {
        "VGA"
    } else if contains_text_exec(adapter, "EGA") {
        "EGA"
    } else {
        "CGA"
    }
}

/// Runtime state for tracking currently loaded project and mounts
#[derive(Debug)]
pub struct RuntimeState {
    /// Currently loaded .hemu project file path (if any)
    current_project_path: Option<String>,
    /// Current mount points (mount_id, file_path), each id at most once
    current_mounts: Vec<(String, String)>,
    /// Project-specific input override (when using per-project config);
    /// None means using the global settings
    input_override: Option<InputConfig>,
}

impl RuntimeState {
    #[verifier::type_invariant]
    spec fn ids_unique(&self) -> bool {
        unique_ids(self.current_mounts@)
    }

    /// The mounts, by mount id.
    pub closed spec fn mounts(&self) -> Map<Seq<char>, Seq<char>> {
        mounts_map(self.current_mounts@)
    }

    /// The path of the loaded project.
    pub closed spec fn project_path(&self) -> Option<Seq<char>> {
        match self.current_project_path {
            Some(p) => Some(p@),
            None => None,
        }
    }

    /// The project-specific input override.
    pub closed spec fn override_config(&self) -> Option<InputConfig> {
        self.input_override
    }

    /// The project-specific input override (None: the global settings apply).
    pub fn input_override(&self) -> (r: &Option<InputConfig>)
        ensures
            *r == self.override_config(),
    {
        &self.input_override
    }

    /// Set or clear the project-specific input override.
    pub fn set_input_override(&mut self, input: Option<InputConfig>)
        ensures
            final(self).override_config() == input,
            final(self).mounts() == old(self).mounts(),
            final(self).project_path() == old(self).project_path(),
    {
        proof {
            use_type_invariant(&*self);
        }
        self.input_override = input;
    }

    /// No project, no mounts, no input override.
    pub fn new() -> (s: Self)
        ensures
            s.mounts() == Map::<Seq<char>, Seq<char>>::empty(),
            s.project_path() is None,
            s.override_config() is None,
    {
        RuntimeState { current_project_path: None, current_mounts: Vec::new(), input_override: None }
    }

    /// The index of the entry for `mount_id`, if there is one.
    fn find_mount(&self, mount_id: &str) -> (r: Option<usize>)
        ensures
            match r {
                Some(i) => i < self.current_mounts@.len() && self.current_mounts@[i as int].0@
                    == mount_id@,
                None => forall|j: int|
                    0 <= j < self.current_mounts@.len() ==> self.current_mounts@[j].0@ != mount_id@,
            },
    {
        let mut i: usize = 0;
        while i < self.current_mounts.len()
            invariant
                i <= self.current_mounts@.len(),
                forall|j: int| 0 <= j < i ==> self.current_mounts@[j].0@ != mount_id@,
            decreases self.current_mounts.len() - i,
        {
            if str_eq(self.current_mounts[i].0.as_str(), mount_id) {
                return Some(i);
            }
            i += 1;
        }
        None
    }

    /// Mount `path` at `mount_id`, replacing what was mounted there.
    pub fn set_mount(&mut self, mount_id: String, path: String)
        ensures
            final(self).mounts() == old(self).mounts().insert(mount_id@, path@),
            final(self).project_path() == old(self).project_path(),
            final(self).override_config() == old(self).override_config(),
    {
        proof {
            use_type_invariant(&*self);
        }
        let ghost before = self.current_mounts@;
        let found = self.find_mount(mount_id.as_str());
        let mut mounts: Vec<(String, String)> = Vec::new();
        std::mem::swap(&mut mounts, &mut self.current_mounts);
        match found {
            Some(i) => {
                proof {
                    lemma_mounts_map_update(before, i as int, (mount_id, path));
                    let after = before.update(i as int, (mount_id, path));
                    assert forall|a: int, b: int| 0 <= a < b < after.len() implies after[a].0@
                        != after[b].0@ by {
                        assert(after[a].0@ == before[a].0@);
                        assert(after[b].0@ == before[b].0@);
                    }
                }
                mounts.set(i, (mount_id, path));
            },
            None => {
                proof {
                    let after = before.push((mount_id, path));
                    assert(after.drop_last() =~= before);
                    assert forall|a: int, b: int| 0 <= a < b < after.len() implies after[a].0@
                        != after[b].0@ by {
                        if b == after.len() - 1 {
                            assert(after[a] == before[a]);
                        } else {
                            assert(after[a] == before[a]);
                            assert(after[b] == before[b]);
                        }
                    }
                }
                mounts.push((mount_id, path));
            },
        }
        self.current_mounts = mounts;
    }

    /// The path mounted at `mount_id`, if any.
    pub fn get_mount(&self, mount_id: &str) -> (r: Option<&String>)
        ensures
            r is Some <==> self.mounts().contains_key(mount_id@),
            r matches Some(p) ==> p@ == self.mounts()[mount_id@],
    {
        proof {
            use_type_invariant(self);
        }
        match self.find_mount(mount_id) {
            Some(i) => {
                proof {
                    lemma_mounts_map_value(self.current_mounts@, i as int);
                }
                Some(&self.current_mounts[i].1)
            },
            None => {
                proof {
                    lemma_mounts_map_contains(self.current_mounts@, mount_id@);
                }
                None
            },
        }
    }

    /// The mounts as (mount id, path) pairs, each id once.
    pub fn mount_entries(&self) -> (r: &[(String, String)])
        ensures
            unique_ids(r@),
            mounts_map(r@) == self.mounts(),
    {
        proof {
            use_type_invariant(self);
        }
        self.current_mounts.as_slice()
    }

    /// The mounts that a saved project of `system` records: those whose mount id is
    /// one that the system uses, in mount order.
    pub fn project_mounts(&self, system: &str) -> (r: Vec<(String, String)>)
        ensures
            unique_ids(r@),
            mounts_map(r@) == self.mounts().restrict(project_mount_ids(system@).to_set()),
    {
        proof {
            use_type_invariant(self);
        }
        let ids = project_mount_ids_exec(system);
        let ghost keep = project_mount_ids(system@).to_set();
        let mut r: Vec<(String, String)> = Vec::new();
        let mut i: usize = 0;
        while i < self.current_mounts.len()
            invariant
                i <= self.current_mounts@.len(),
                unique_ids(self.current_mounts@),
                ids@.map_values(|id: &str| id@) == project_mount_ids(system@),
                keep == project_mount_ids(system@).to_set(),
                r@ == kept_mounts(self.current_mounts@.take(i as int), keep),
            decreases self.current_mounts.len() - i,
        {
            let entry = &self.current_mounts[i];
            proof {
                let t = self.current_mounts@.take(i + 1);
                assert(t.drop_last() =~= self.current_mounts@.take(i as int));
                assert(t.last() == self.current_mounts@[i as int]);
            }
            if contains_id(&ids, entry.0.as_str()) {
                r.push((entry.0.clone(), entry.1.clone()));
            }
            i += 1;
        }
        proof {
            assert(self.current_mounts@.take(self.current_mounts@.len() as int)
                =~= self.current_mounts@);
            lemma_kept_mounts(self.current_mounts@, keep);
        }
        r
    }

    /// Remove every mount.
    pub fn clear_mounts(&mut self)
        ensures
            final(self).mounts() == Map::<Seq<char>, Seq<char>>::empty(),
            final(self).project_path() == old(self).project_path(),
            final(self).override_config() == old(self).override_config(),
    {
        proof {
            use_type_invariant(&*self);
        }
        self.current_mounts = Vec::new();
    }

    /// Record the path of the loaded project.
    pub fn set_project_path(&mut self, path: String)
        ensures
            final(self).project_path() == Some(path@),
            final(self).mounts() == old(self).mounts(),
            final(self).override_config() == old(self).override_config(),
    {
        proof {
            use_type_invariant(&*self);
        }
        self.current_project_path = Some(path);
    }

    /// Forget the loaded project.
    pub fn clear_project_path(&mut self)
        ensures
            final(self).project_path() is None,
            final(self).mounts() == old(self).mounts(),
            final(self).override_config() == old(self).override_config(),
    {
        proof {
            use_type_invariant(&*self);
        }
        self.current_project_path = None;
    }

    /// The file name of the loaded project, if there is a project and its path
    /// has a file name.
    pub fn get_project_filename(&self) -> (r: Option<String>)
        ensures
            match self.project_path() {
                Some(p) => match file_name(p) {
                    Some(n) => r matches Some(s) && s@ == n,
                    None => r is None,
                },
                None => r is None,
            },
    {
        match &self.current_project_path {
            Some(p) => file_name_of(p.as_str()),
            None => None,
        }
    }
}

/// The start of the segment of `chars` that ends at `end`.
fn segment_start_exec(chars: &Vec<char>, end: usize) -> (s: usize)
    requires
        end <= chars@.len(),
    ensures
        s == segment_start(chars@, end as int),
        s <= end,
{
    let mut s: usize = end;
    while s > 0 && chars[s - 1] != '/'
        invariant
            s <= end,
            end <= chars@.len(),
            segment_start(chars@, end as int) == segment_start(chars@, s as int),
        decreases s,
    {
        s -= 1;
    }
    s
}

/// The bounds of `last_component(chars@, end)`, if there is one.
fn last_component_exec(chars: &Vec<char>, upto: usize) -> (r: Option<(usize, usize)>)
    requires
        upto <= chars@.len(),
    ensures
        match r {
            Some((a, b)) => a <= b <= chars@.len() && last_component(chars@, upto as int) == Some(
                chars@.subrange(a as int, b as int),
            ),
            None => last_component(chars@, upto as int) is None,
        },
{
    let ghost p = chars@;
    let mut end: usize = upto;
    loop
        invariant
            end <= chars@.len(),
            chars@ == p,
            last_component(p, upto as int) == last_component(p, end as int),
        decreases end,
    {
        if end == 0 {
            return None;
        }
        let start = segment_start_exec(chars, end);
        let len = end - start;
        let is_dot = len == 1 && chars[start] == '.';
        proof {
            let seg = p.subrange(start as int, end as int);
            if len == 1 {
                assert(seg[0] == p[start as int]);
                if chars[start as int] == '.' {
                    assert(seg =~= seq!['.']);
                } else {
                    assert(seq!['.'][0] == '.');
                    assert(seg[0] != seq!['.'][0]);
                    assert(seg != seq!['.']);
                }
            } else {
                assert(seg.len() != seq!['.'].len());
                assert(seg != seq!['.']);
            }
            assert(is_dot == (seg == seq!['.']));
        }
        if len != 0 && !is_dot {
            return Some((start, end));
        }
        if start == 0 {
            return None;
        }
        end = start - 1;
    }
}

/// The file name of `path` (see `file_name`).
fn file_name_of(path: &str) -> (r: Option<String>)
    ensures
        match file_name(path@) {
            Some(n) => r matches Some(s) && s@ == n,
            None => r is None,
        },
{
    let chars = chars_of(path);
    match last_component_exec(&chars, chars.len()) {
        None => None,
        Some((a, b)) => {
            let ghost seg = chars@.subrange(a as int, b as int);
            let is_parent = b - a == 2 && chars[a] == '.' && chars[a + 1] == '.';
            proof {
                if b - a == 2 {
                    assert(seg[0] == chars@[a as int]);
                    assert(seg[1] == chars@[a + 1]);
                    if chars@[a as int] == '.' && chars@[a + 1] == '.' {
                        assert(seg =~= seq!['.', '.']);
                    } else {
                        let dd = seq!['.', '.'];
                        assert(dd[0] == '.' && dd[1] == '.');
                        assert(seg[0] != dd[0] || seg[1] != dd[1]);
                    }
                }
                assert(is_parent == (seg == seq!['.', '.']));
            }
            if is_parent {
                None
            } else {
                Some(path.substring_char(a, b).to_owned())
            }
        },
    }
}

/// A mount reads back as it was set, and setting one mount leaves every other
/// mount as it was: for states before and after `set_mount(id, path)`.
pub proof fn lemma_set_mount_then_get(
    before: RuntimeState,
    after: RuntimeState,
    id: Seq<char>,
    path: Seq<char>,
    other: Seq<char>,
)
    requires
        after.mounts() == before.mounts().insert(id, path),
    ensures
        after.mounts().contains_key(id),
        after.mounts()[id] == path,
        other != id ==> after.mounts().contains_key(other) == before.mounts().contains_key(other),
        other != id && before.mounts().contains_key(other) ==> after.mounts()[other]
            == before.mounts()[other],
{
}

/// A project records exactly the mounts of the system's own mount points: each
/// recorded mount is a current one, and each current mount of such a point is
/// recorded.
pub proof fn lemma_project_mounts_exact(
    state: RuntimeState,
    system: Seq<char>,
    recorded: Map<Seq<char>, Seq<char>>,
    id: Seq<char>,
)
    requires
        recorded == state.mounts().restrict(project_mount_ids(system).to_set()),
    ensures
        recorded.contains_key(id) <==> (state.mounts().contains_key(id) && project_mount_ids(
            system,
        ).contains(id)),
        recorded.contains_key(id) ==> recorded[id] == state.mounts()[id],
{
}

/// A BIOS image is taken when it has the size that the system expects, if it
/// expects one.
pub open spec fn bios_size_ok(len: usize, expected: Option<usize>) -> bool {
    match expected {
        Some(size) => len == size,
        None => true,
    }
}

/// Is a BIOS image of `len` bytes taken for a system expecting `expected` bytes?
pub fn bios_size_accepted(len: usize, expected: Option<usize>) -> (b: bool)
    ensures
        b == bios_size_ok(len, expected),
{
    match expected {
        Some(size) => len == size,
        None => true,
    }
}

} // verus!
