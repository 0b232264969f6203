use crate::types::{AppKeyEntry, AppPermissions, AppPublicId, Error, PublicKey};
use vstd::prelude::*;

verus! {

/// One grant: a client's app key with its permissions.
#[derive(Clone, Copy, Debug)]
struct GrantEntry {
    client: PublicKey,
    app: PublicKey,
    permissions: AppPermissions,
}

/// The version of one client's key set.
#[derive(Clone, Copy, Debug)]
struct VersionEntry {
    client: PublicKey,
    version: u64,
}

spec fn grant_key(e: GrantEntry) -> (PublicKey, PublicKey) {
    (e.client, e.app)
}

spec fn grants_wf(g: Seq<GrantEntry>, m: Map<(PublicKey, PublicKey), AppPermissions>) -> bool {
    &&& forall|i: int|
        0 <= i < g.len() ==> {
            &&& #[trigger] m.contains_key(grant_key(g[i]))
            &&& m[grant_key(g[i])] == g[i].permissions
        }
    &&& forall|k: (PublicKey, PublicKey)| #[trigger]
        m.contains_key(k) ==> exists|i: int| 0 <= i < g.len() && grant_key(g[i]) == k
    &&& forall|i: int, j: int| 0 <= i < g.len() && 0 <= j < g.len() && i != j ==> grant_key(g[i]) != grant_key(g[j])
}

spec fn versions_wf(v: Seq<VersionEntry>, m: Map<PublicKey, u64>) -> bool {
    &&& forall|i: int|
        0 <= i < v.len() ==> {
            &&& #[trigger] m.contains_key(v[i].client)
            &&& m[v[i].client] == v[i].version
        }
    &&& forall|c: PublicKey| #[trigger]
        m.contains_key(c) ==> exists|i: int| 0 <= i < v.len() && v[i].client == c
    &&& forall|i: int, j: int| 0 <= i < v.len() && 0 <= j < v.len() && i != j ==> v[i].client != v[j].client
}

proof fn lemma_grants_set(g: Seq<GrantEntry>, m: Map<(PublicKey, PublicKey), AppPermissions>, j: int, e: GrantEntry)
    requires
        grants_wf(g, m),
        0 <= j < g.len(),
        grant_key(g[j]) == grant_key(e),
    ensures
        grants_wf(g.update(j, e), m.insert(grant_key(e), e.permissions)),
{
    let g2 = g.update(j, e);
    let m2 = m.insert(grant_key(e), e.permissions);
    assert forall|i: int| 0 <= i < g2.len() implies {
        &&& #[trigger] m2.contains_key(grant_key(g2[i]))
        &&& m2[grant_key(g2[i])] == g2[i].permissions
    } by {
        if i != j {
            assert(grant_key(g[i]) != grant_key(g[j]));
        }
    }
    assert forall|k: (PublicKey, PublicKey)| #[trigger] m2.contains_key(k) implies exists|i: int|
        0 <= i < g2.len() && grant_key(g2[i]) == k by {
        if k != grant_key(e) {
            let i = choose|i: int| 0 <= i < g.len() && grant_key(g[i]) == k;
            assert(grant_key(g2[i]) == k);
        } else {
            assert(grant_key(g2[j]) == k);
        }
    }
    assert forall|a: int, b: int| 0 <= a < g2.len() && 0 <= b < g2.len() && a != b implies grant_key(g2[a]) != grant_key(g2[b]) by {
        assert(grant_key(g[a]) != grant_key(g[b]));
    }
}

proof fn lemma_grants_push(g: Seq<GrantEntry>, m: Map<(PublicKey, PublicKey), AppPermissions>, e: GrantEntry)
    requires
        grants_wf(g, m),
        !m.contains_key(grant_key(e)),
    ensures
        grants_wf(g.push(e), m.insert(grant_key(e), e.permissions)),
{
    let g2 = g.push(e);
    let m2 = m.insert(grant_key(e), e.permissions);
    let n = g.len() as int;
    assert forall|i: int| 0 <= i < g2.len() implies {
        &&& #[trigger] m2.contains_key(grant_key(g2[i]))
        &&& m2[grant_key(g2[i])] == g2[i].permissions
    } by {
        if i < n {
            assert(g2[i] == g[i]);
            assert(m.contains_key(grant_key(g[i])));
        }
    }
    assert forall|k: (PublicKey, PublicKey)| #[trigger] m2.contains_key(k) implies exists|i: int|
        0 <= i < g2.len() && grant_key(g2[i]) == k by {
        if k != grant_key(e) {
            let i = choose|i: int| 0 <= i < g.len() && grant_key(g[i]) == k;
            assert(grant_key(g2[i]) == k);
        } else {
            assert(grant_key(g2[n]) == k);
        }
    }
    assert forall|a: int, b: int| 0 <= a < g2.len() && 0 <= b < g2.len() && a != b implies grant_key(g2[a]) != grant_key(g2[b]) by {
        if a < n && b < n {
            assert(grant_key(g[a]) != grant_key(g[b]));
        } else if a < n {
            assert(m.contains_key(grant_key(g[a])));
        } else {
            assert(m.contains_key(grant_key(g[b])));
        }
    }
}

proof fn lemma_grants_remove(g: Seq<GrantEntry>, m: Map<(PublicKey, PublicKey), AppPermissions>, j: int)
    requires
        grants_wf(g, m),
        0 <= j < g.len(),
    ensures
        grants_wf(g.remove(j), m.remove(grant_key(g[j]))),
{
    let g2 = g.remove(j);
    let m2 = m.remove(grant_key(g[j]));
    assert forall|i: int| 0 <= i < g2.len() implies {
        &&& #[trigger] m2.contains_key(grant_key(g2[i]))
        &&& m2[grant_key(g2[i])] == g2[i].permissions
    } by {
        let oi = if i < j { i } else { i + 1 };
        assert(g2[i] == g[oi]);
        assert(grant_key(g[oi]) != grant_key(g[j]));
        assert(m.contains_key(grant_key(g[oi])));
    }
    assert forall|k: (PublicKey, PublicKey)| #[trigger] m2.contains_key(k) implies exists|i: int|
        0 <= i < g2.len() && grant_key(g2[i]) == k by {
        assert(m.contains_key(k));
        let i = choose|i: int| 0 <= i < g.len() && grant_key(g[i]) == k;
        if i < j {
            assert(grant_key(g2[i]) == k);
        } else {
            assert(grant_key(g2[i - 1]) == k);
        }
    }
    assert forall|a: int, b: int| 0 <= a < g2.len() && 0 <= b < g2.len() && a != b implies grant_key(g2[a]) != grant_key(g2[b]) by {
        let oa = if a < j { a } else { a + 1 };
        let ob = if b < j { b } else { b + 1 };
        assert(g2[a] == g[oa]);
        assert(g2[b] == g[ob]);
        assert(grant_key(g[oa]) != grant_key(g[ob]));
    }
}

proof fn lemma_versions_set(v: Seq<VersionEntry>, m: Map<PublicKey, u64>, j: int, e: VersionEntry)
    requires
        versions_wf(v, m),
        0 <= j < v.len(),
        v[j].client == e.client,
    ensures
        versions_wf(v.update(j, e), m.insert(e.client, e.version)),
{
    let v2 = v.update(j, e);
    let m2 = m.insert(e.client, e.version);
    assert forall|i: int| 0 <= i < v2.len() implies {
        &&& #[trigger] m2.contains_key(v2[i].client)
        &&& m2[v2[i].client] == v2[i].version
    } by {
        if i != j {
            assert(v[i].client != v[j].client);
        }
    }
    assert forall|c: PublicKey| #[trigger] m2.contains_key(c) implies exists|i: int|
        0 <= i < v2.len() && v2[i].client == c by {
        if c != e.client {
            let i = choose|i: int| 0 <= i < v.len() && v[i].client == c;
            assert(v2[i].client == c);
        } else {
            assert(v2[j].client == c);
        }
    }
    assert forall|a: int, b: int| 0 <= a < v2.len() && 0 <= b < v2.len() && a != b implies v2[a].client != v2[b].client by {
        assert(v[a].client != v[b].client);
    }
}

proof fn lemma_versions_push(v: Seq<VersionEntry>, m: Map<PublicKey, u64>, e: VersionEntry)
    requires
        versions_wf(v, m),
        !m.contains_key(e.client),
    ensures
        versions_wf(v.push(e), m.insert(e.client, e.version)),
{
    let v2 = v.push(e);
    let m2 = m.insert(e.client, e.version);
    let n = v.len() as int;
    assert forall|i: int| 0 <= i < v2.len() implies {
        &&& #[trigger] m2.contains_key(v2[i].client)
        &&& m2[v2[i].client] == v2[i].version
    } by {
        if i < n {
            assert(v2[i] == v[i]);
            assert(m.contains_key(v[i].client));
        }
    }
    assert forall|c: PublicKey| #[trigger] m2.contains_key(c) implies exists|i: int|
        0 <= i < v2.len() && v2[i].client == c by {
        if c != e.client {
            let i = choose|i: int| 0 <= i < v.len() && v[i].client == c;
            assert(v2[i].client == c);
        } else {
            assert(v2[n].client == c);
        }
    }
    assert forall|a: int, b: int| 0 <= a < v2.len() && 0 <= b < v2.len() && a != b implies v2[a].client != v2[b].client by {
        if a < n && b < n {
            assert(v[a].client != v[b].client);
        } else if a < n {
            assert(m.contains_key(v[a].client));
        } else {
            assert(m.contains_key(v[b].client));
        }
    }
}

/// Per client, the app keys it has registered with their permissions, and the
/// version of that set. A client with no entry is at version 0.
pub struct AuthKeysDb {
    grants: Vec<GrantEntry>,
    versions: Vec<VersionEntry>,
    grant_map: Ghost<Map<(PublicKey, PublicKey), AppPermissions>>,
    version_map: Ghost<Map<PublicKey, u64>>,
}

impl AuthKeysDb {
    /// Grants, keyed by (client, app key).
    pub closed spec fn grant_view(&self) -> Map<(PublicKey, PublicKey), AppPermissions> {
        self.grant_map@
    }

    /// Stored versions, keyed by client.
    pub closed spec fn version_view(&self) -> Map<PublicKey, u64> {
        self.version_map@
    }

    pub open spec fn permissions(&self, client: PublicKey, app: PublicKey) -> Option<AppPermissions> {
        if self.grant_view().contains_key((client, app)) {
            Some(self.grant_view()[(client, app)])
        } else {
            None
        }
    }

    pub open spec fn version(&self, client: PublicKey) -> u64 {
        if self.version_view().contains_key(client) {
            self.version_view()[client]
        } else {
            0
        }
    }

    /// The app keys of one client, with their permissions.
    pub open spec fn keys_of(&self, client: PublicKey) -> Map<PublicKey, AppPermissions> {
        Map::new(
            |a: PublicKey| self.grant_view().contains_key((client, a)),
            |a: PublicKey| self.grant_view()[(client, a)],
        )
    }

    /// An update with this version is accepted: it is the stored one, and
    /// the version can still advance.
    pub open spec fn version_accepted(&self, client: PublicKey, version: u64) -> bool {
        version == self.version(client) && self.version(client) < u64::MAX
    }

    pub closed spec fn wf(&self) -> bool {
        &&& grants_wf(self.grants@, self.grant_map@)
        &&& versions_wf(self.versions@, self.version_map@)
    }

    /// An empty store: no grants, every client at version 0.
    pub fn new() -> (r: AuthKeysDb)
        ensures
            r.wf(),
            r.grant_view() == Map::<(PublicKey, PublicKey), AppPermissions>::empty(),
            r.version_view() == Map::<PublicKey, u64>::empty(),
    {
        AuthKeysDb {
            grants: Vec::new(),
            versions: Vec::new(),
            grant_map: Ghost(Map::empty()),
            version_map: Ghost(Map::empty()),
        }
    }

    fn find_grant(&self, client: &PublicKey, app: &PublicKey) -> (r: Option<usize>)
        requires
            self.wf(),
        ensures
            match r {
                Some(j) => j < self.grants@.len() && grant_key(self.grants@[j as int]) == (
                *client,
                *app,
                ),
                None => !self.grant_view().contains_key((*client, *app)),
            },
    {
        let mut i: usize = 0;
        while i < self.grants.len()
            invariant
                i <= self.grants@.len(),
                forall|j: int| 0 <= j < i ==> grant_key(self.grants@[j]) != (*client, *app),
            decreases self.grants@.len() - i,
        {
            let e = self.grants[i];
            if e.client.same_as(client) && e.app.same_as(app) {
                return Some(i);
            }
            i = i + 1;
        }
        None
    }

    fn find_version(&self, client: &PublicKey) -> (r: Option<usize>)
        requires
            self.wf(),
        ensures
            match r {
                Some(j) => j < self.versions@.len() && self.versions@[j as int].client == *client,
                None => !self.version_view().contains_key(*client),
            },
    {
        let mut i: usize = 0;
        while i < self.versions.len()
            invariant
                i <= self.versions@.len(),
                forall|j: int| 0 <= j < i ==> self.versions@[j].client != *client,
            decreases self.versions@.len() - i,
        {
            if self.versions[i].client.same_as(client) {
                return Some(i);
            }
            i = i + 1;
        }
        None
    }

    /// The stored version of a client's key set.
    pub fn current_version(&self, client: &PublicKey) -> (r: u64)
        requires
            self.wf(),
        ensures
            r == self.version(*client),
    {
        match self.find_version(client) {
            Some(j) => self.versions[j].version,
            None => 0,
        }
    }

    /// Moves the client's version on by one.
    fn bump_version(&mut self, client: &PublicKey)
        requires
            old(self).wf(),
            old(self).version(*client) < u64::MAX,
        ensures
            final(self).wf(),
            final(self).grants@ == old(self).grants@,
            final(self).grant_map@ == old(self).grant_map@,
            final(self).version_view() == old(self).version_view().insert(
                *client,
                (old(self).version(*client) + 1) as u64,
            ),
    {
        let ghost old_versions = self.versions@;
        let ghost old_map = self.version_map@;
        match self.find_version(client) {
            Some(j) => {
                let v = self.versions[j].version;
                let e = VersionEntry { client: *client, version: v + 1 };
                proof {
                    lemma_versions_set(old_versions, old_map, j as int, e);
                }
                self.versions.set(j, e);
                self.version_map = Ghost(old_map.insert(*client, (v + 1) as u64));
            },
            None => {
                let e = VersionEntry { client: *client, version: 1 };
                proof {
                    lemma_versions_push(old_versions, old_map, e);
                }
                self.versions.push(e);
                self.version_map = Ghost(old_map.insert(*client, 1));
            },
        }
    }

    /// Grants `permissions` to the app `key` of `client`, replacing an earlier
    /// grant, and moves the client's version on. `version` must be the stored
    /// one; otherwise nothing changes and the stored version is reported.
    pub fn insert(
        &mut self,
        client: &PublicKey,
        key: PublicKey,
        version: u64,
        permissions: AppPermissions,
    ) -> (r: Result<(), Error>)
        requires
            old(self).wf(),
        ensures
            final(self).wf(),
            r is Ok <==> old(self).version_accepted(*client, version),
            r is Ok ==> {
                &&& final(self).grant_view() == old(self).grant_view().insert(
                    (*client, key),
                    permissions,
                )
                &&& final(self).version_view() == old(self).version_view().insert(
                    *client,
                    (version + 1) as u64,
                )
            },
            r is Err ==> {
                &&& r == Err::<(), Error>(Error::VersionConflict { current: old(self).version(*client) })
                &&& final(self).grant_view() == old(self).grant_view()
                &&& final(self).version_view() == old(self).version_view()
            },
    {
        let current = self.current_version(client);
        if version != current || current == u64::MAX {
            return Err(Error::VersionConflict { current });
        }
        let ghost old_grants = self.grants@;
        let ghost old_map = self.grant_map@;
        let entry = GrantEntry { client: *client, app: key, permissions };
        match self.find_grant(client, &key) {
            Some(j) => {
                proof {
                    lemma_grants_set(old_grants, old_map, j as int, entry);
                }
                self.grants.set(j, entry);
            },
            None => {
                proof {
                    lemma_grants_push(old_grants, old_map, entry);
                }
                self.grants.push(entry);
            },
        }
        self.grant_map = Ghost(old_map.insert((*client, key), permissions));
        self.bump_version(client);
        Ok(())
    }

    /// Removes the app `key` of `client` and moves the client's version on.
    /// A version other than the stored one is a conflict; an app key that was
    /// never granted is not found. On an error nothing changes.
    pub fn delete(&mut self, client: &PublicKey, key: PublicKey, version: u64) -> (r: Result<
        (),
        Error,
    >)
        requires
            old(self).wf(),
        ensures
            final(self).wf(),
            !old(self).version_accepted(*client, version) ==> r == Err::<(), Error>(
                Error::VersionConflict { current: old(self).version(*client) },
            ),
            old(self).version_accepted(*client, version) && !old(self).grant_view().contains_key(
                (*client, key),
            ) ==> r == Err::<(), Error>(Error::KeyNotFound),
            r is Ok <==> old(self).version_accepted(*client, version)
                && old(self).grant_view().contains_key((*client, key)),
            r is Ok ==> {
                &&& final(self).grant_view() == old(self).grant_view().remove((*client, key))
                &&& final(self).version_view() == old(self).version_view().insert(
                    *client,
                    (version + 1) as u64,
                )
            },
            r is Err ==> {
                &&& final(self).grant_view() == old(self).grant_view()
                &&& final(self).version_view() == old(self).version_view()
            },
    {
        let current = self.current_version(client);
        if version != current || current == u64::MAX {
            return Err(Error::VersionConflict { current });
        }
        let ghost old_grants = self.grants@;
        let ghost old_map = self.grant_map@;
        match self.find_grant(client, &key) {
            Some(j) => {
                proof {
                    lemma_grants_remove(old_grants, old_map, j as int);
                }
                self.grants.remove(j);
                self.grant_map = Ghost(old_map.remove((*client, key)));
            },
            None => {
                return Err(Error::KeyNotFound);
            },
        }
        self.bump_version(client);
        Ok(())
    }

    /// The permissions granted to an app by the client that owns it.
    pub fn app_permissions(&self, app: &AppPublicId) -> (r: Option<AppPermissions>)
        requires
            self.wf(),
        ensures
            r == self.permissions(app.owner, app.key),
    {
        match self.find_grant(&app.owner, &app.key) {
            Some(j) => Some(self.grants[j].permissions),
            None => None,
        }
    }

    /// The app keys of `client` with their permissions, each once, and the
    /// version of that set.
    pub fn list_keys_and_version(&self, client: &PublicKey) -> (r: (Vec<AppKeyEntry>, u64))
        requires
            self.wf(),
        ensures
            lists_keys(r.0@, self.keys_of(*client)),
            r.1 == self.version(*client),
    {
        let mut out: Vec<AppKeyEntry> = Vec::new();
        let ghost mut src: Seq<int> = Seq::empty();
        let mut i: usize = 0;
        while i < self.grants.len()
            invariant
                i <= self.grants@.len(),
                src.len() == out@.len(),
                forall|m: int|
                    #![trigger src[m]]
                    0 <= m < out@.len() ==> {
                        &&& 0 <= src[m] < i
                        &&& self.grants@[src[m]].client == *client
                        &&& self.grants@[src[m]].app == out@[m].key
                        &&& self.grants@[src[m]].permissions == out@[m].permissions
                    },
                forall|m1: int, m2: int| 0 <= m1 < m2 < src.len() ==> src[m1] < src[m2],
                forall|n: int|
                    #![trigger self.grants@[n]]
                    0 <= n < i && self.grants@[n].client == *client ==> exists|m: int|
                        0 <= m < out@.len() && out@[m].key == self.grants@[n].app,
            decreases self.grants@.len() - i,
        {
            let e = self.grants[i];
            if e.client.same_as(client) {
                let ghost before = out@;
                out.push(AppKeyEntry { key: e.app, permissions: e.permissions });
                proof {
                    let ghost before_src = src;
                    src = src.push(i as int);
                    assert forall|m: int| #![trigger src[m]] 0 <= m < out@.len() implies {
                        &&& 0 <= src[m] < i + 1
                        &&& self.grants@[src[m]].client == *client
                        &&& self.grants@[src[m]].app == out@[m].key
                        &&& self.grants@[src[m]].permissions == out@[m].permissions
                    } by {
                        if m < before.len() {
                            assert(out@[m] == before[m]);
                            assert(src[m] == before_src[m]);
                        }
                    }
                    assert forall|m1: int, m2: int| 0 <= m1 < m2 < src.len() implies src[m1] < src[m2] by {
                        if m2 < before.len() {
                            assert(src[m1] == before_src[m1]);
                            assert(src[m2] == before_src[m2]);
                        } else {
                            assert(out@[m1] == before[m1]);
                            assert(src[m1] == before_src[m1]);
                        }
                    }
                    assert forall|n: int|
                        #![trigger self.grants@[n]]
                        0 <= n < i + 1 && self.grants@[n].client == *client implies exists|m: int|
                        0 <= m < out@.len() && out@[m].key == self.grants@[n].app by {
                        if n < i {
                            let m = choose|m: int|
                                0 <= m < before.len() && before[m].key == self.grants@[n].app;
                            assert(out@[m] == before[m]);
                        } else {
                            assert(out@[before.len() as int].key == self.grants@[n].app);
                        }
                    }
                }
            }
            i = i + 1;
        }
        let ghost keys = self.keys_of(*client);
        assert forall|m: int| 0 <= m < out@.len() implies {
            &&& #[trigger] keys.contains_key(out@[m].key)
            &&& keys[out@[m].key] == out@[m].permissions
        } by {
            assert(self.grants@[src[m]].app == out@[m].key);
            assert(grant_key(self.grants@[src[m]]) == (*client, out@[m].key));
        }
        assert forall|a: PublicKey| #[trigger] keys.contains_key(a) implies exists|m: int|
            0 <= m < out@.len() && out@[m].key == a by {
            assert(self.grant_map@.contains_key((*client, a)));
            let n = choose|n: int|
                0 <= n < self.grants@.len() && grant_key(self.grants@[n]) == (*client, a);
            assert(self.grants@[n].client == *client);
        }
        assert forall|m1: int, m2: int| 0 <= m1 < m2 < out@.len() implies out@[m1].key != out@[m2].key by {
            assert(self.grants@[src[m1]].app == out@[m1].key);
            assert(self.grants@[src[m2]].app == out@[m2].key);
            assert(grant_key(self.grants@[src[m1]]) != grant_key(self.grants@[src[m2]]));
        }
        (out, self.current_version(client))
    }
}

/// `entries` holds each key of `keys` exactly once, with its permissions, and
/// nothing else.
pub open spec fn lists_keys(entries: Seq<AppKeyEntry>, keys: Map<PublicKey, AppPermissions>) -> bool {
    &&& forall|m: int|
        0 <= m < entries.len() ==> {
            &&& #[trigger] keys.contains_key(entries[m].key)
            &&& keys[entries[m].key] == entries[m].permissions
        }
    &&& forall|a: PublicKey| #[trigger]
        keys.contains_key(a) ==> exists|m: int| 0 <= m < entries.len() && entries[m].key == a
    &&& forall|m1: int, m2: int|
        0 <= m1 < m2 < entries.len() ==> entries[m1].key != entries[m2].key
}

} // verus!
