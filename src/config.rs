use vstd::prelude::*;
use crate::error::HarddotsError;

verus! {

/// One managed file.
#[derive(Debug, Clone)]
pub struct Application {
    /// The primary key, unique within a manifest.
    pub name: String,
    /// Destination on the local filesystem; tilde-expanded on use.
    pub target_path: String,
    /// Source inside the cache, relative to its root.
    pub source_git_path: String,
    /// Reserved; not consulted.
    pub version: Option<String>,
    /// OS-family key (`macos`, `debian`, `alpine`) to package name.
    pub packages: Vec<(String, String)>,
    /// Reserved; not consulted.
    pub custom_install: Option<Vec<(String, String)>>,
}

/// The declarative manifest.
#[derive(Debug, Clone)]
pub struct HarddotsConfig {
    pub git_repo: String,
    /// Local clone location; `~/.cache/harddots` when absent.
    pub cache_dir: Option<String>,
    /// Declaration order is deployment order.
    pub applications: Vec<Application>,
}

/// Whether some application of `apps` is named `name`.
pub open spec fn has_app(apps: Seq<Application>, name: Seq<char>) -> bool {
    exists|i: int| 0 <= i < apps.len() && #[trigger] apps[i].name@ == name
}

/// `i` is the position of the first application named `name`.
pub open spec fn first_named(apps: Seq<Application>, name: Seq<char>, i: int) -> bool {
    0 <= i < apps.len() && apps[i].name@ == name && forall|j: int|
        0 <= j < i ==> #[trigger] apps[j].name@ != name
}

/// No two applications share a name.
pub open spec fn names_unique(apps: Seq<Application>) -> bool {
    forall|i: int, j: int|
        0 <= i < apps.len() && 0 <= j < apps.len() && i != j ==> #[trigger] apps[i].name@
            != #[trigger] apps[j].name@
}

/// No two entries of a package map share a key.
pub open spec fn keys_unique(m: Seq<(String, String)>) -> bool {
    forall|i: int, j: int|
        0 <= i < m.len() && 0 <= j < m.len() && i != j ==> #[trigger] m[i].0@ != #[trigger] m[j].0@
}

/// The package named under `key`, if any.
pub open spec fn package_under(m: Seq<(String, String)>, key: Seq<char>) -> Option<Seq<char>> {
    if exists|i: int| 0 <= i < m.len() && #[trigger] m[i].0@ == key {
        let i = choose|i: int| 0 <= i < m.len() && #[trigger] m[i].0@ == key;
        Some(m[i].1@)
    } else {
        None
    }
}

/// The text of an optional string.
pub open spec fn opt_view(o: Option<String>) -> Option<Seq<char>> {
    match o {
        Some(s) => Some(s@),
        None => None,
    }
}

pub open spec fn is_duplicate_error(e: HarddotsError, name: Seq<char>) -> bool {
    match e {
        HarddotsError::DuplicateApplication(n) => n@ == name,
        _ => false,
    }
}

/// Appending an entry under a fresh key keeps a package map's keys unique,
/// makes that key name the new package, and leaves every other key as it was.
proof fn lemma_push_package(m: Seq<(String, String)>, e: (String, String), key: Seq<char>)
    requires
        keys_unique(m),
        package_under(m, e.0@).is_none(),
    ensures
        keys_unique(m.push(e)),
        package_under(m.push(e), key) == if key == e.0@ {
            Some(e.1@)
        } else {
            package_under(m, key)
        },
{
    let n = m.push(e);
    assert forall|i: int| 0 <= i < m.len() implies #[trigger] m[i].0@ != e.0@ by {
        if m[i].0@ == e.0@ {
            assert(exists|i: int| 0 <= i < m.len() && #[trigger] m[i].0@ == e.0@);
        }
    }
    assert forall|i: int, j: int|
        0 <= i < n.len() && 0 <= j < n.len() && i != j implies #[trigger] n[i].0@
        != #[trigger] n[j].0@ by {
        if i < m.len() && j < m.len() {
            assert(n[i] == m[i] && n[j] == m[j]);
        } else if i < m.len() {
            assert(n[i] == m[i]);
        } else {
            assert(n[j] == m[j]);
        }
    }
    if key == e.0@ {
        assert(n[m.len() as int].0@ == key);
        let k = choose|k: int| 0 <= k < n.len() && #[trigger] n[k].0@ == key;
        if k < m.len() {
            assert(n[k] == m[k]);
        }
    } else {
        if exists|i: int| 0 <= i < m.len() && #[trigger] m[i].0@ == key {
            let a = choose|i: int| 0 <= i < m.len() && #[trigger] m[i].0@ == key;
            assert(n[a] == m[a]);
            let k = choose|k: int| 0 <= k < n.len() && #[trigger] n[k].0@ == key;
            if k < m.len() {
                assert(n[k] == m[k]);
            }
        } else {
            assert forall|k: int| 0 <= k < n.len() implies #[trigger] n[k].0@ != key by {
                if k < m.len() {
                    assert(n[k] == m[k]);
                }
            }
        }
    }
}

/// Whether no two entries of a package map share a key.
fn keys_distinct(m: &Vec<(String, String)>) -> (r: bool)
    ensures
        r == keys_unique(m@),
{
    let n = m.len();
    let mut j: usize = 0;
    while j < n
        invariant
            n == m@.len(),
            j <= n,
            forall|a: int, b: int| 0 <= a < j && 0 <= b < j && a != b ==> #[trigger] m@[a].0@ != #[trigger] m@[b].0@,
        decreases n - j,
    {
        let mut i: usize = 0;
        while i < j
            invariant
                n == m@.len(),
                i <= j < n,
                forall|a: int| 0 <= a < i ==> #[trigger] m@[a].0@ != m@[j as int].0@,
            decreases j - i,
        {
            if m[i].0 == m[j].0 {
                assert(!keys_unique(m@)) by {
                    assert(m@[i as int].0@ == m@[j as int].0@);
                }
                return false;
            }
            i = i + 1;
        }
        j = j + 1;
    }
    true
}

impl Application {
    /// A well-formed application: its package map has unique keys.
    pub open spec fn wf(&self) -> bool {
        keys_unique(self.packages@)
    }

    /// The application that `add` declares: no version, no custom install, and
    /// a package entry for each family whose package name is given, in the order
    /// macOS, Debian, Alpine.
    pub fn new(
        name: String,
        target_path: String,
        source_git_path: String,
        macos_pkg: Option<String>,
        debian_pkg: Option<String>,
        alpine_pkg: Option<String>,
    ) -> (r: Application)
        ensures
            r.wf(),
            r.name == name,
            r.target_path == target_path,
            r.source_git_path == source_git_path,
            r.version.is_none(),
            r.custom_install.is_none(),
            package_under(r.packages@, "macos"@) == opt_view(macos_pkg),
            package_under(r.packages@, "debian"@) == opt_view(debian_pkg),
            package_under(r.packages@, "alpine"@) == opt_view(alpine_pkg),
            r.packages@.len() == macos_pkg.is_some() as int + debian_pkg.is_some() as int
                + alpine_pkg.is_some() as int,
    {
        let mut packages: Vec<(String, String)> = Vec::new();
        proof {
            reveal_strlit("macos");
            reveal_strlit("debian");
            reveal_strlit("alpine");
            assert("macos"@ != "debian"@ && "macos"@ != "alpine"@ && "debian"@ != "alpine"@) by {
                assert("macos"@.len() != "debian"@.len());
                assert("debian"@[0] != "alpine"@[0]);
            }
        }
        assert(package_under(packages@, "macos"@) == None::<Seq<char>>);
        assert(package_under(packages@, "debian"@) == None::<Seq<char>>);
        assert(package_under(packages@, "alpine"@) == None::<Seq<char>>);
        if let Some(p) = macos_pkg {
            let ghost before = packages@;
            packages.push(("macos".to_owned(), p));
            proof {
                lemma_push_package(before, packages@.last(), "debian"@);
                lemma_push_package(before, packages@.last(), "alpine"@);
                lemma_push_package(before, packages@.last(), "macos"@);
            }
        }
        if let Some(p) = debian_pkg {
            let ghost before = packages@;
            packages.push(("debian".to_owned(), p));
            proof {
                lemma_push_package(before, packages@.last(), "debian"@);
                lemma_push_package(before, packages@.last(), "alpine"@);
                lemma_push_package(before, packages@.last(), "macos"@);
            }
        }
        if let Some(p) = alpine_pkg {
            let ghost before = packages@;
            packages.push(("alpine".to_owned(), p));
            proof {
                lemma_push_package(before, packages@.last(), "debian"@);
                lemma_push_package(before, packages@.last(), "alpine"@);
                lemma_push_package(before, packages@.last(), "macos"@);
            }
        }
        let r = Application {
            name,
            target_path,
            source_git_path,
            version: None,
            packages,
            custom_install: None,
        };
        r
    }

    /// The package declared for the given OS-family key, if any.
    pub fn package_for(&self, key: &str) -> (r: Option<String>)
        requires
            self.wf(),
        ensures
            opt_view(r) == package_under(self.packages@, key@),
    {
        let wanted = key.to_owned();
        let mut i: usize = 0;
        while i < self.packages.len()
            invariant
                wanted@ == key@,
                self.wf(),
                i <= self.packages@.len(),
                forall|j: int| 0 <= j < i ==> #[trigger] self.packages@[j].0@ != key@,
            decreases self.packages@.len() - i,
        {
            if self.packages[i].0 == wanted {
                let r = self.packages[i].1.clone();
                assert(self.packages@[i as int].0@ == key@);
                proof {
                    let m = self.packages@;
                    let k = choose|k: int| 0 <= k < m.len() && #[trigger] m[k].0@ == key@;
                    if k != i as int {
                        assert(m[k].0@ != m[i as int].0@);
                    }
                }
                return Some(r);
            }
            i = i + 1;
        }
        None
    }
}

impl HarddotsConfig {
    /// A well-formed manifest: application names are unique and each
    /// application is well formed.
    pub open spec fn wf(&self) -> bool {
        names_unique(self.applications@) && forall|i: int|
            0 <= i < self.applications@.len() ==> #[trigger] self.applications@[i].wf()
    }

    /// Checks the manifest's invariants: application names are unique (else
    /// `DuplicateApplication` with a repeated name), and so are the keys of each
    /// package map (else `Other`).
    pub fn validate(&self) -> (r: Result<(), HarddotsError>)
        ensures
            r.is_ok() <==> self.wf(),
            match r {
                Ok(()) => true,
                Err(HarddotsError::DuplicateApplication(n)) => exists|a: int, b: int|
                    0 <= a < b < self.applications@.len() && #[trigger] self.applications@[a].name@
                        == n@ && #[trigger] self.applications@[b].name@ == n@,
                Err(HarddotsError::Other(_)) => names_unique(self.applications@) && exists|a: int|
                    0 <= a < self.applications@.len() && !#[trigger] self.applications@[a].wf(),
                Err(_) => false,
            },
    {
        let n = self.applications.len();
        let mut j: usize = 0;
        while j < n
            invariant
                n == self.applications@.len(),
                j <= n,
                forall|a: int, b: int|
                    0 <= a < j && 0 <= b < j && a != b ==> #[trigger] self.applications@[a].name@
                        != #[trigger] self.applications@[b].name@,
            decreases n - j,
        {
            let mut i: usize = 0;
            while i < j
                invariant
                    n == self.applications@.len(),
                    i <= j < n,
                    forall|a: int| 0 <= a < i ==> #[trigger] self.applications@[a].name@
                        != self.applications@[j as int].name@,
                decreases j - i,
            {
                if self.applications[i].name == self.applications[j].name {
                    return Err(HarddotsError::DuplicateApplication(self.applications[j].name.clone()));
                }
                i = i + 1;
            }
            j = j + 1;
        }
        let mut k: usize = 0;
        while k < n
            invariant
                n == self.applications@.len(),
                k <= n,
                names_unique(self.applications@),
                forall|a: int| 0 <= a < k ==> #[trigger] self.applications@[a].wf(),
            decreases n - k,
        {
            if !keys_distinct(&self.applications[k].packages) {
                let e = HarddotsError::other("duplicate package key in an application");
                assert(!self.applications@[k as int].wf());
                assert(e is Other);
                return Err(e);
            }
            k = k + 1;
        }
        Ok(())
    }

    /// The position of the first application named `name`.
    pub fn position(&self, name: &str) -> (r: Option<usize>)
        ensures
            match r {
                Some(i) => first_named(self.applications@, name@, i as int),
                None => !has_app(self.applications@, name@),
            },
    {
        let key = name.to_owned();
        let mut i: usize = 0;
        while i < self.applications.len()
            invariant
                i <= self.applications@.len(),
                key@ == name@,
                forall|j: int| 0 <= j < i ==> #[trigger] self.applications@[j].name@ != name@,
            decreases self.applications@.len() - i,
        {
            if self.applications[i].name == key {
                return Some(i);
            }
            i = i + 1;
        }
        None
    }

    /// Appends `app`, unless an application of that name is already declared:
    /// then fails with `DuplicateApplication` and leaves the manifest unchanged.
    pub fn add(&mut self, app: Application) -> (r: Result<(), HarddotsError>)
        ensures
            has_app(old(self).applications@, app.name@) <==> r.is_err(),
            match r {
                Ok(()) => final(self).applications@ == old(self).applications@.push(app),
                Err(e) => is_duplicate_error(e, app.name@) && final(self).applications@
                    == old(self).applications@,
            },
            final(self).git_repo == old(self).git_repo,
            final(self).cache_dir == old(self).cache_dir,
            old(self).wf() && app.wf() ==> final(self).wf(),
    {
        match self.position(app.name.as_str()) {
            Some(_) => Err(HarddotsError::DuplicateApplication(app.name)),
            None => {
                self.applications.push(app);
                Ok(())
            },
        }
    }

    /// Removes the application named `name`, if declared, and says whether one
    /// was removed; otherwise the manifest is left unchanged. `force` is
    /// accepted for a confirmation step and changes nothing.
    pub fn remove(&mut self, name: &str, force: bool) -> (removed: bool)
        ensures
            removed == has_app(old(self).applications@, name@),
            !removed ==> *final(self) == *old(self),
            removed ==> exists|i: int|
                first_named(old(self).applications@, name@, i) && final(self).applications@
                    == old(self).applications@.remove(i),
            old(self).wf() ==> !has_app(final(self).applications@, name@),
            final(self).git_repo == old(self).git_repo,
            final(self).cache_dir == old(self).cache_dir,
            old(self).wf() ==> final(self).wf(),
    {
        match self.position(name) {
            Some(i) => {
                let ghost before = self.applications@;
                self.applications.remove(i);
                proof {
                    let after = self.applications@;
                    assert(after == before.remove(i as int));
                    assert forall|a: int, b: int|
                        0 <= a < after.len() && 0 <= b < after.len() && a != b
                            && names_unique(before) implies #[trigger] after[a].name@
                        != #[trigger] after[b].name@ by {
                        let a0 = if a < i { a } else { a + 1 };
                        let b0 = if b < i { b } else { b + 1 };
                        assert(after[a] == before[a0]);
                        assert(after[b] == before[b0]);
                    }
                    if names_unique(before) {
                        assert forall|k: int| 0 <= k < after.len() implies #[trigger] after[k].name@
                            != name@ by {
                            let k0 = if k < i { k } else { k + 1 };
                            assert(after[k] == before[k0]);
                        }
                    }
                    assert forall|k: int|
                        0 <= k < after.len() && (forall|m: int|
                            0 <= m < before.len() ==> #[trigger] before[m].wf()) implies #[trigger] after[k].wf() by {
                        let k0 = if k < i { k } else { k + 1 };
                        assert(after[k] == before[k0]);
                    }
                }
                true
            },
            None => false,
        }
    }
}

} // verus!
