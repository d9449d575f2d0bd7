//! Reading and writing the package database.

use crate::id::PackageId;
use crate::model::{
    first_index, ids_of, lemma_first_index, lemma_first_index_is, lemma_first_index_none,
    position_of, views, without_first, Database, DatabaseView, EntryView, Package, PackageDataEntry,
    PackageView,
};
use vstd::prelude::*;

verus! {

/// The database of a machine that has just been set up.
pub open spec fn empty_database() -> DatabaseView {
    DatabaseView { ntp_synced: false, package_data: Seq::empty(), broken_packages: Seq::empty() }
}

/// Finds the first place at which an identifier stands in a list.
pub fn find_id(ids: &Vec<PackageId>, id: &PackageId) -> (at: Option<usize>)
    ensures
        match at {
            Some(i) => i < ids@.len() && first_index(views(ids@), id@) == Some(i as int),
            None => first_index(views(ids@), id@) is None,
        },
{
    let mut i: usize = 0;
    while i < ids.len()
        invariant
            i <= ids@.len(),
            forall|j: int| 0 <= j < i ==> #[trigger] views(ids@)[j] != id@,
        decreases ids@.len() - i,
    {
        if ids[i].same(id) {
            proof {
                lemma_first_index_is(views(ids@), id@, i as int);
            }
            return Some(i);
        }
        i += 1;
    }
    proof {
        lemma_first_index_none(views(ids@), id@);
    }
    None
}

impl Database {
    /// The database of a machine that has just been set up: no package, and
    /// a clock that has not been set from the network.
    pub fn init() -> (db: Database)
        ensures
            db@ == empty_database(),
            db@.wf(),
    {
        let db = Database {
            ntp_synced: false,
            package_data: Vec::new(),
            broken_packages: Vec::new(),
        };
        assert(db@.package_data =~= Seq::empty());
        assert(db@.broken_packages =~= Seq::empty());
        assert(ids_of(db@.package_data) =~= Seq::empty());
        db
    }

    /// Finds the place of a package.
    pub fn find(&self, id: &PackageId) -> (at: Option<usize>)
        ensures
            match at {
                Some(i) => i < self.package_data@.len() && position_of(self@.package_data, id@)
                    == Some(i as int),
                None => position_of(self@.package_data, id@) is None,
            },
    {
        let mut i: usize = 0;
        while i < self.package_data.len()
            invariant
                i <= self.package_data@.len(),
                forall|j: int| 0 <= j < i ==> #[trigger] ids_of(self@.package_data)[j] != id@,
            decreases self.package_data@.len() - i,
        {
            if self.package_data[i].id.same(id) {
                proof {
                    lemma_first_index_is(ids_of(self@.package_data), id@, i as int);
                }
                return Some(i);
            }
            i += 1;
        }
        proof {
            lemma_first_index_none(ids_of(self@.package_data), id@);
        }
        None
    }

    /// Whether the database holds an entry for a package.
    pub fn has_entry(&self, id: &PackageId) -> (has: bool)
        ensures
            has == self@.has(id@),
    {
        self.find(id).is_some()
    }

    /// Writes the entry of a package: over the one that it has, or as a new
    /// one.
    pub fn put_entry(&mut self, id: PackageId, entry: PackageDataEntry)
        ensures
            final(self)@ == old(self)@.with_entry(id@, entry@),
            old(self)@.wf() ==> final(self)@.wf(),
    {
        proof {
            lemma_with_entry(self@, id@, entry@);
        }
        match self.find(&id) {
            Some(i) => {
                self.package_data[i] = Package { id, entry };
                assert(views(self.package_data@) =~= views(old(self).package_data@).update(
                    i as int,
                    PackageView { id: id@, entry: entry@ },
                ));
            },
            None => {
                self.package_data.push(Package { id, entry });
                assert(views(self.package_data@) =~= views(old(self).package_data@).push(
                    PackageView { id: id@, entry: entry@ },
                ));
            },
        }
    }

    /// Takes the entry of a package out of the database.
    pub fn remove_entry(&mut self, id: &PackageId)
        ensures
            final(self)@ == old(self)@.without_entry(id@),
            old(self)@.wf() ==> final(self)@.wf(),
    {
        proof {
            lemma_without_entry(self@, id@);
        }
        match self.find(id) {
            Some(i) => {
                self.package_data.remove(i);
                assert(views(self.package_data@) =~= views(old(self).package_data@).remove(
                    i as int,
                ));
            },
            None => {},
        }
    }

    /// Whether a package is listed as broken.
    pub fn is_broken(&self, id: &PackageId) -> (broken: bool)
        ensures
            broken == self@.is_broken(id@),
    {
        find_id(&self.broken_packages, id).is_some()
    }

    /// Puts a package on the list of broken packages, if it is not there.
    pub fn mark_broken(&mut self, id: &PackageId)
        ensures
            final(self)@ == old(self)@.with_broken(id@),
            final(self)@.is_broken(id@),
            old(self)@.wf() ==> final(self)@.wf(),
    {
        proof {
            lemma_with_broken(self@, id@);
        }
        if find_id(&self.broken_packages, id).is_none() {
            self.broken_packages.push(id.clone());
            assert(views(self.broken_packages@) =~= views(old(self).broken_packages@).push(id@));
        }
    }

    /// Takes a package off the list of broken packages.
    pub fn clear_broken(&mut self, id: &PackageId)
        ensures
            final(self)@ == old(self)@.without_broken(id@),
            old(self)@.wf() ==> !final(self)@.is_broken(id@) && final(self)@.wf(),
    {
        proof {
            lemma_without_broken(self@, id@);
        }
        match find_id(&self.broken_packages, id) {
            Some(i) => {
                self.broken_packages.remove(i);
                assert(views(self.broken_packages@) =~= views(old(self).broken_packages@).remove(
                    i as int,
                ));
            },
            None => {},
        }
    }

    /// Commits an installation: writes the entry of the installed package
    /// and takes the package off the list of broken packages.
    pub fn commit_installed(&mut self, id: PackageId, entry: PackageDataEntry)
        ensures
            final(self)@ == old(self)@.with_entry(id@, entry@).without_broken(id@),
            old(self)@.wf() ==> final(self)@.wf(),
    {
        let broken = id.clone();
        self.put_entry(id, entry);
        self.clear_broken(&broken);
    }
}

/// After an entry has been written for a package the database holds that
/// entry for it, holds every other package as before, and is well formed if
/// it was.
pub proof fn lemma_with_entry(db: DatabaseView, id: Seq<char>, entry: EntryView)
    ensures
        db.with_entry(id, entry).has(id),
        db.with_entry(id, entry).entry(id) == entry,
        db.with_entry(id, entry).broken_packages == db.broken_packages,
        forall|other: Seq<char>|
            other != id ==> (#[trigger] db.with_entry(id, entry).has(other) == db.has(other)),
        forall|other: Seq<char>|
            other != id && db.has(other) ==> #[trigger] db.with_entry(id, entry).entry(other)
                == db.entry(other),
        db.wf() ==> db.with_entry(id, entry).wf(),
{
    let after = db.with_entry(id, entry);
    let ids = ids_of(db.package_data);
    let ids_after = ids_of(after.package_data);
    lemma_first_index(ids, id);
    match position_of(db.package_data, id) {
        Some(i) => {
            assert(ids_after =~= ids);
        },
        None => {
            assert(ids_after =~= ids.push(id));
            lemma_first_index_is(ids_after, id, ids.len() as int);
            assert forall|other: Seq<char>| other != id implies #[trigger] first_index(
                ids_after,
                other,
            ) == first_index(ids, other) by {
                assert(ids_after.drop_last() =~= ids);
            }
        },
    }
    assert forall|other: Seq<char>| other != id && db.has(other) implies #[trigger] after.entry(
        other,
    ) == db.entry(other) by {
        lemma_first_index(ids, other);
    }
}

/// Taking one package out of a list leaves every package with another
/// identifier where it can be found, with the entry it had.
proof fn lemma_removal_keeps_others(packages: Seq<PackageView>, i: int, other: Seq<char>)
    requires
        0 <= i < packages.len(),
        packages[i].id != other,
    ensures
        position_of(packages.remove(i), other) is Some == position_of(packages, other) is Some,
        position_of(packages, other) matches Some(k) ==> packages.remove(i)[position_of(
            packages.remove(i),
            other,
        ).unwrap()] == packages[k],
{
    let ids = ids_of(packages);
    let ids_after = ids_of(packages.remove(i));
    assert(ids_after =~= ids.remove(i));
    lemma_first_index(ids, other);
    lemma_first_index(ids_after, other);
    match first_index(ids, other) {
        Some(k) => {
            let k2 = if k < i {
                k
            } else {
                k - 1
            };
            assert(ids_after[k2] == other);
            assert forall|j: int| 0 <= j < k2 implies #[trigger] ids_after[j] != other by {
                if j < i {
                    assert(ids_after[j] == ids[j]);
                } else {
                    assert(ids_after[j] == ids[j + 1]);
                }
            }
            lemma_first_index_is(ids_after, other, k2);
        },
        None => {
            assert forall|j: int| 0 <= j < ids_after.len() implies #[trigger] ids_after[j]
                != other by {
                if j < i {
                    assert(ids_after[j] == ids[j]);
                } else {
                    assert(ids_after[j] == ids[j + 1]);
                }
            }
            lemma_first_index_none(ids_after, other);
        },
    }
}

/// After the entry of a package has been taken out, every other package is
/// held as before, and the database is well formed if it was; if it was,
/// the package is held no more.
pub proof fn lemma_without_entry(db: DatabaseView, id: Seq<char>)
    ensures
        db.without_entry(id).broken_packages == db.broken_packages,
        forall|other: Seq<char>|
            other != id ==> (#[trigger] db.without_entry(id).has(other) == db.has(other)),
        forall|other: Seq<char>|
            other != id && db.has(other) ==> #[trigger] db.without_entry(id).entry(other)
                == db.entry(other),
        db.wf() ==> db.without_entry(id).wf() && !db.without_entry(id).has(id),
        !db.has(id) ==> db.without_entry(id) == db,
{
    let after = db.without_entry(id);
    let ids = ids_of(db.package_data);
    let ids_after = ids_of(after.package_data);
    lemma_first_index(ids, id);
    match position_of(db.package_data, id) {
        Some(i) => {
            assert(ids_after =~= ids.remove(i));
            assert forall|other: Seq<char>| other != id implies #[trigger] after.has(other)
                == db.has(other) by {
                lemma_removal_keeps_others(db.package_data, i, other);
            }
            assert forall|other: Seq<char>| other != id && db.has(other) implies #[trigger] after.entry(
                other,
            ) == db.entry(other) by {
                lemma_removal_keeps_others(db.package_data, i, other);
            }
            if db.wf() {
                assert forall|a: int, b: int|
                    0 <= a < ids_after.len() && 0 <= b < ids_after.len() && a != b implies ids_after[a]
                    != ids_after[b] by {
                    let a0 = if a < i {
                        a
                    } else {
                        a + 1
                    };
                    let b0 = if b < i {
                        b
                    } else {
                        b + 1
                    };
                    assert(ids_after[a] == ids[a0]);
                    assert(ids_after[b] == ids[b0]);
                }
                assert forall|j: int| 0 <= j < ids_after.len() implies #[trigger] ids_after[j]
                    != id by {
                    let j0 = if j < i {
                        j
                    } else {
                        j + 1
                    };
                    assert(ids_after[j] == ids[j0]);
                }
                lemma_first_index_none(ids_after, id);
            }
        },
        None => {},
    }
}

/// After a package has been listed as broken it is listed, and the
/// database is well formed if it was.
pub proof fn lemma_with_broken(db: DatabaseView, id: Seq<char>)
    ensures
        db.with_broken(id).is_broken(id),
        db.with_broken(id).package_data == db.package_data,
        forall|other: Seq<char>|
            db.is_broken(other) ==> #[trigger] db.with_broken(id).is_broken(other),
        forall|other: Seq<char>|
            other != id ==> (#[trigger] db.with_broken(id).is_broken(other) == db.is_broken(other)),
        db.wf() ==> db.with_broken(id).wf(),
{
    let broken = db.broken_packages;
    lemma_first_index(broken, id);
    if !db.is_broken(id) {
        let after = broken.push(id);
        lemma_first_index_is(after, id, broken.len() as int);
        assert(after.drop_last() =~= broken);
    }
}

/// Taking an identifier out of a list of identifiers at its first place
/// leaves every other identifier in the list if and only if it was there; in
/// a list that holds no identifier twice it leaves none twice, and the
/// identifier itself is gone.
pub proof fn lemma_ids_without_first(ids: Seq<Seq<char>>, id: Seq<char>)
    ensures
        forall|other: Seq<char>|
            other != id ==> (#[trigger] first_index(
                without_first(ids, first_index(ids, id)),
                other,
            ) is Some) == (first_index(ids, other) is Some),
        ids.no_duplicates() ==> without_first(ids, first_index(ids, id)).no_duplicates()
            && first_index(without_first(ids, first_index(ids, id)), id) is None,
        first_index(ids, id) is None ==> without_first(ids, first_index(ids, id)) == ids,
{
    let ids_after = without_first(ids, first_index(ids, id));
    lemma_first_index(ids, id);
    match first_index(ids, id) {
        Some(i) => {
            assert(ids_after =~= ids.remove(i));
            assert forall|other: Seq<char>| other != id implies (#[trigger] first_index(
                ids_after,
                other,
            ) is Some) == (first_index(ids, other) is Some) by {
                lemma_first_index(ids, other);
                lemma_first_index(ids_after, other);
                match first_index(ids, other) {
                    Some(k) => {
                        let k2 = if k < i {
                            k
                        } else {
                            k - 1
                        };
                        assert(ids_after[k2] == other);
                    },
                    None => {
                        assert forall|j: int| 0 <= j < ids_after.len() implies #[trigger] ids_after[j]
                            != other by {
                            if j < i {
                                assert(ids_after[j] == ids[j]);
                            } else {
                                assert(ids_after[j] == ids[j + 1]);
                            }
                        }
                        lemma_first_index_none(ids_after, other);
                    },
                }
            }
            if ids.no_duplicates() {
                assert forall|a: int, b: int|
                    0 <= a < ids_after.len() && 0 <= b < ids_after.len() && a != b implies ids_after[a]
                    != ids_after[b] by {
                    let a0 = if a < i {
                        a
                    } else {
                        a + 1
                    };
                    let b0 = if b < i {
                        b
                    } else {
                        b + 1
                    };
                    assert(ids_after[a] == ids[a0]);
                    assert(ids_after[b] == ids[b0]);
                }
                assert forall|j: int| 0 <= j < ids_after.len() implies #[trigger] ids_after[j]
                    != id by {
                    let j0 = if j < i {
                        j
                    } else {
                        j + 1
                    };
                    assert(ids_after[j] == ids[j0]);
                }
                lemma_first_index_none(ids_after, id);
            }
        },
        None => {},
    }
}

/// Putting an identifier behind a list of identifiers that does not hold it
/// makes it the last one to be found, leaves every other identifier as it
/// was, and leaves no identifier twice in a list that held none twice.
pub proof fn lemma_ids_with_new(ids: Seq<Seq<char>>, id: Seq<char>)
    requires
        first_index(ids, id) is None,
    ensures
        first_index(ids.push(id), id) == Some(ids.len() as int),
        forall|other: Seq<char>|
            other != id ==> #[trigger] first_index(ids.push(id), other) == first_index(ids, other),
        ids.no_duplicates() ==> ids.push(id).no_duplicates(),
{
    lemma_first_index(ids, id);
    lemma_first_index_is(ids.push(id), id, ids.len() as int);
    assert(ids.push(id).drop_last() =~= ids);
}

/// After a package has been taken off the list of broken packages every
/// other package is listed as before; in a well-formed database the package
/// itself is listed no more.
pub proof fn lemma_without_broken(db: DatabaseView, id: Seq<char>)
    ensures
        db.without_broken(id).package_data == db.package_data,
        forall|other: Seq<char>|
            other != id ==> (#[trigger] db.without_broken(id).is_broken(other) == db.is_broken(
                other,
            )),
        db.wf() ==> db.without_broken(id).wf() && !db.without_broken(id).is_broken(id),
        !db.is_broken(id) ==> db.without_broken(id) == db,
{
    lemma_ids_without_first(db.broken_packages, id);
}

} // verus!
