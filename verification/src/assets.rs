//! The opaque blob source the catalogue serves images from.
//!
//! The blobs live outside the library; the caller loads them once into an
//! `AssetStore`, keyed by file name. A record's image is looked up under its
//! lowercased name with a fixed extension, the same derivation the service has
//! always used.

use vstd::prelude::*;
use vstd::slice::slice_to_vec;

verus! {

/// The lowercase form of a text. A pure function of the characters alone.
pub uninterp spec fn lower_of(s: Seq<char>) -> Seq<char>;

/// Relies on str::to_lowercase: the result depends on the characters alone.
#[verifier::external_body]
fn lowercase(s: &str) -> (r: String)
    ensures
        r@ == lower_of(s@),
{
    s.to_lowercase()
}

/// The file name a record's image is stored under.
pub open spec fn spec_image_file_name(planet_name: Seq<char>) -> Seq<char> {
    lower_of(planet_name) + ".jpg"@
}

/// Derives the file name of the image of the record named `planet_name`.
pub fn image_file_name(planet_name: &str) -> (file: String)
    ensures
        file@ == spec_image_file_name(planet_name@),
{
    let mut file = lowercase(planet_name);
    file.append(".jpg");
    file
}

/// The mapping a list of named blobs stands for; a later entry under a name
/// already taken wins, though a well-formed store never holds one.
pub open spec fn spec_entries_map(entries: Seq<(String, Vec<u8>)>) -> Map<Seq<char>, Seq<u8>>
    decreases entries.len(),
{
    if entries.len() == 0 {
        Map::empty()
    } else {
        spec_entries_map(entries.drop_last()).insert(entries.last().0@, entries.last().1@)
    }
}

/// A list entry is in the mapping, with its own blob, wherever no other entry
/// shares its name.
proof fn lemma_entries_map_value(entries: Seq<(String, Vec<u8>)>, k: int)
    requires
        forall|i: int, j: int|
            0 <= i < j < entries.len() ==> (#[trigger] entries[i]).0@ != (#[trigger] entries[j]).0@,
        0 <= k < entries.len(),
    ensures
        spec_entries_map(entries).contains_key(entries[k].0@),
        spec_entries_map(entries)[entries[k].0@] == entries[k].1@,
    decreases entries.len(),
{
    if k < entries.len() - 1 {
        let earlier = entries.drop_last();
        lemma_entries_map_value(earlier, k);
        assert(entries.last().0@ != entries[k].0@);
    }
}

/// A name no entry carries is not in the mapping.
proof fn lemma_entries_map_absent(entries: Seq<(String, Vec<u8>)>, name: Seq<char>)
    requires
        forall|j: int| 0 <= j < entries.len() ==> (#[trigger] entries[j]).0@ != name,
    ensures
        !spec_entries_map(entries).contains_key(name),
    decreases entries.len(),
{
    if entries.len() > 0 {
        lemma_entries_map_absent(entries.drop_last(), name);
    }
}

/// A store of named binary blobs, held as plain values.
pub struct AssetStore {
    entries: Vec<(String, Vec<u8>)>,
}

impl AssetStore {
    /// The blobs the store holds, by name.
    pub closed spec fn contents(&self) -> Map<Seq<char>, Seq<u8>> {
        spec_entries_map(self.entries@)
    }

    /// Every name is held at most once.
    pub closed spec fn wf(&self) -> bool {
        forall|i: int, j: int|
            0 <= i < j < self.entries@.len() ==> (#[trigger] self.entries@[i]).0@ != (
            #[trigger] self.entries@[j]).0@
    }

    /// An empty store.
    pub fn new() -> (store: Self)
        ensures
            store.wf(),
            store.contents() == Map::<Seq<char>, Seq<u8>>::empty(),
    {
        AssetStore { entries: Vec::new() }
    }

    /// Adds the blob `data` under `name`; a name already present keeps its
    /// first blob.
    pub fn add(&mut self, name: String, data: Vec<u8>)
        requires
            old(self).wf(),
        ensures
            final(self).wf(),
            final(self).contents() == (if old(self).contents().contains_key(name@) {
                old(self).contents()
            } else {
                old(self).contents().insert(name@, data@)
            }),
    {
        if self.find(&name).is_some() {
            return ;
        }
        proof {
            assert forall|j: int| 0 <= j < self.entries@.len() implies (
            #[trigger] self.entries@[j]).0@ != name@ by {
                lemma_entries_map_value(self.entries@, j);
            }
        }
        let ghost before = self.entries@;
        self.entries.push((name, data));
        proof {
            assert(self.entries@.drop_last() =~= before);
            assert(self.contents() =~= spec_entries_map(before).insert(
                self.entries@.last().0@,
                self.entries@.last().1@,
            ));
        }
    }

    /// The blob held under `name`, where one is.
    pub fn find(&self, name: &String) -> (r: Option<&Vec<u8>>)
        requires
            self.wf(),
        ensures
            match r {
                Some(data) => self.contents().contains_key(name@) && data@ == self.contents()[name@],
                None => !self.contents().contains_key(name@),
            },
    {
        let n = self.entries.len();
        let mut i: usize = 0;
        while i < n
            invariant
                n == self.entries@.len(),
                i <= n,
                self.wf(),
                forall|j: int| 0 <= j < i ==> (#[trigger] self.entries@[j]).0@ != name@,
            decreases n - i,
        {
            if self.entries[i].0 == *name {
                proof {
                    lemma_entries_map_value(self.entries@, i as int);
                }
                return Some(&self.entries[i].1);
            }
            i = i + 1;
        }
        proof {
            lemma_entries_map_absent(self.entries@, name@);
        }
        None
    }
}

/// The image of the record named `planet_name`: the blob stored under the
/// lowercased name with the fixed extension, or nothing where the store holds
/// none.
pub fn get_planet_image(assets: &AssetStore, planet_name: &str) -> (image: Option<Vec<u8>>)
    requires
        assets.wf(),
    ensures
        match image {
            Some(data) => assets.contents().contains_key(spec_image_file_name(planet_name@))
                && data@ == assets.contents()[spec_image_file_name(planet_name@)],
            None => !assets.contents().contains_key(spec_image_file_name(planet_name@)),
        },
{
    let file = image_file_name(planet_name);
    match assets.find(&file) {
        Some(data) => Some(slice_to_vec(data.as_slice())),
        None => None,
    }
}

} // verus!
