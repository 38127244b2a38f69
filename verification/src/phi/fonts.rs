use vstd::prelude::*;

verus! {

/// What names a font: the file that it comes from and the size at which it is loaded.
#[derive(Debug)]
pub struct FontKey {
    pub path: String,
    pub size: u16,
}

/// The fonts that have been loaded, each in a slot of its own. The cache keeps
/// the names; whoever loads the fonts keeps each font under its slot.
#[derive(Debug)]
pub struct FontCache {
    pub keys: Vec<FontKey>,
}

/// Whether the key in slot `i` names the font of the given path and size.
pub open spec fn names(keys: Seq<FontKey>, i: int, path: Seq<char>, size: u16) -> bool {
    keys[i].path@ == path && keys[i].size == size
}

/// Whether two keys name the same font.
pub open spec fn same_font(a: FontKey, b: FontKey) -> bool {
    a.path@ == b.path@ && a.size == b.size
}

impl FontCache {
    /// No font is there twice.
    pub open spec fn wf(self) -> bool {
        forall|i: int, j: int|
            0 <= i < j < self.keys@.len() ==> !same_font(
                #[trigger] self.keys@[i],
                #[trigger] self.keys@[j],
            )
    }

    /// Whether the font of the given path and size has a slot.
    pub open spec fn holds(self, path: Seq<char>, size: u16) -> bool {
        exists|i: int| 0 <= i < self.keys@.len() && names(self.keys@, i, path, size)
    }

    /// A cache without fonts.
    pub fn new() -> (r: FontCache)
        ensures
            r.keys@.len() == 0,
            r.wf(),
    {
        FontCache { keys: Vec::new() }
    }

    /// The slot of the font of the given path and size, if it has one.
    pub fn slot(&self, path: &str, size: u16) -> (r: Option<usize>)
        ensures
            r is Some <==> self.holds(path@, size),
            r matches Some(i) ==> i < self.keys@.len() && names(self.keys@, i as int, path@, size),
    {
        let wanted: String = path.to_owned();
        let mut i: usize = 0;
        while i < self.keys.len()
            invariant
                0 <= i <= self.keys@.len(),
                wanted@ == path@,
                forall|k: int| 0 <= k < i ==> !names(self.keys@, k, path@, size),
            decreases self.keys@.len() - i,
        {
            if self.keys[i].size == size && self.keys[i].path == wanted {
                assert(names(self.keys@, i as int, path@, size));
                return Some(i);
            }
            i += 1;
        }
        None
    }

    /// Takes a font in, once it is loaded, and says in which slot to keep it: the
    /// next free one, or, for a font that is there already, the slot that it
    /// has. From then on the font is found.
    pub fn insert(&mut self, path: &str, size: u16) -> (r: usize)
        requires
            old(self).wf(),
        ensures
            final(self).wf(),
            final(self).holds(path@, size),
            r < final(self).keys@.len(),
            names(final(self).keys@, r as int, path@, size),
            old(self).holds(path@, size) ==> final(self).keys@ == old(self).keys@,
            !old(self).holds(path@, size) ==> r == old(self).keys@.len() && final(self).keys@.len()
                == old(self).keys@.len() + 1 && final(self).keys@.subrange(
                0,
                old(self).keys@.len() as int,
            ) == old(self).keys@,
    {
        match self.slot(path, size) {
            Some(i) => i,
            None => {
                let at: usize = self.keys.len();
                let ghost before = self.keys@;
                self.keys.push(FontKey { path: path.to_owned(), size });
                proof {
                    assert(self.keys@.subrange(0, before.len() as int) =~= before);
                    assert(names(self.keys@, at as int, path@, size));
                    assert forall|i: int, j: int| 0 <= i < j < self.keys@.len() implies !same_font(
                        #[trigger] self.keys@[i],
                        #[trigger] self.keys@[j],
                    ) by {
                        if j < before.len() {
                            assert(self.keys@[i] == before[i]);
                            assert(self.keys@[j] == before[j]);
                        } else {
                            assert(self.keys@[i] == before[i]);
                            assert(!names(before, i, path@, size));
                        }
                    }
                }
                at
            },
        }
    }
}

/// A font has one slot: in a cache without doubles, two slots that name the same
/// font are the same slot.
pub proof fn lemma_slot_is_unique(cache: FontCache, i: int, j: int, path: Seq<char>, size: u16)
    requires
        cache.wf(),
        0 <= i < cache.keys@.len(),
        0 <= j < cache.keys@.len(),
        names(cache.keys@, i, path, size),
        names(cache.keys@, j, path, size),
    ensures
        i == j,
{
    if i < j {
        assert(same_font(cache.keys@[i], cache.keys@[j]));
    }
    if j < i {
        assert(same_font(cache.keys@[j], cache.keys@[i]));
    }
}

} // verus!
