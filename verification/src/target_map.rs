use crate::image_target::ImageTarget;
use vstd::prelude::*;

verus! {

/// Mathematical content of a target registry: a map from keys to targets.
pub type Targets = Map<usize, ImageTarget>;

/// The registry's storage: a hash map from application-chosen keys to
/// targets. The map type takes an allocator parameter whose trait its crate
/// keeps private, so it cannot be declared to Verus as it stands and is held
/// behind this struct instead. Verus does not look inside; everything known
/// about it is stated by the operations below in terms of
/// [`target_contents`].
#[verifier::external_body]
pub struct TargetMap {
    inner: bevy::utils::HashMap<usize, ImageTarget>,
}

/// The key-to-target association a [`TargetMap`] currently holds.
pub uninterp spec fn target_contents(map: TargetMap) -> Targets;

impl View for TargetMap {
    type V = Targets;

    open spec fn view(&self) -> Targets {
        target_contents(*self)
    }
}

impl TargetMap {
    /// `HashMap::default`: a map that holds nothing.
    #[verifier::external_body]
    pub(crate) fn new() -> (map: TargetMap)
        ensures
            target_contents(map) == Targets::empty(),
    {
        TargetMap { inner: bevy::utils::HashMap::default() }
    }

    /// `HashMap::insert`: afterwards `key` maps to `target`, whether or not it
    /// was present before; every other key is as it was.
    #[verifier::external_body]
    pub(crate) fn insert(&mut self, key: usize, target: ImageTarget)
        ensures
            target_contents(*final(self)) == target_contents(*old(self)).insert(key, target),
    {
        self.inner.insert(key, target);
    }

    /// `HashMap::get`: the target stored under `key`, or `None` when the key
    /// is absent.
    #[verifier::external_body]
    pub(crate) fn get(&self, key: usize) -> (found: Option<ImageTarget>)
        ensures
            found.is_some() == target_contents(*self).contains_key(key),
            found.is_some() ==> found.unwrap() == target_contents(*self)[key],
    {
        self.inner.get(&key).copied()
    }

    /// `HashMap::remove`: afterwards `key` is absent; every other key is as it
    /// was. Removing an absent key changes nothing.
    #[verifier::external_body]
    pub(crate) fn remove(&mut self, key: usize)
        ensures
            target_contents(*final(self)) == target_contents(*old(self)).remove(key),
    {
        self.inner.remove(&key);
    }

    /// `HashMap::iter`, keeping the keys: every key of the map exactly once,
    /// in an order the map chooses.
    #[verifier::external_body]
    pub(crate) fn keys(&self) -> (keys: Vec<usize>)
        ensures
            keys@.no_duplicates(),
            forall|key: usize| keys@.contains(key) <==> target_contents(*self).contains_key(key),
    {
        self.inner.iter().map(|entry| *entry.0).collect()
    }
}

/// Whether `keys` lists, each once, exactly the keys of `targets` whose
/// target follows the swapchain.
pub open spec fn lists_following(targets: Targets, keys: Seq<usize>) -> bool {
    &&& keys.no_duplicates()
    &&& forall|key: usize|
        keys.contains(key) <==> targets.contains_key(key) && targets[key].follows_swapchain
}

/// `targets` with every following target resized to `swapchain_size`.
pub open spec fn follow_swapchain(targets: Targets, swapchain_size: [u32; 2]) -> Targets {
    targets.map_values(|target: ImageTarget| target.resized_to(swapchain_size))
}

impl TargetMap {
    /// The keys of the targets that follow the swapchain, each once, in an
    /// order the map chooses.
    pub fn following_keys(&self) -> (following: Vec<usize>)
        ensures
            lists_following(self@, following@),
    {
        let keys = self.keys();
        let mut following: Vec<usize> = Vec::new();
        let mut i: usize = 0;
        while i < keys.len()
            invariant
                i <= keys.len(),
                keys@.no_duplicates(),
                forall|key: usize| keys@.contains(key) <==> self@.contains_key(key),
                lists_following(self@.restrict(keys@.take(i as int).to_set()), following@),
            decreases keys.len() - i,
        {
            let key = keys[i];
            let found = self.get(key);
            let ghost earlier = following@;
            let ghost seen = keys@.take(i as int);
            match found {
                Some(target) => {
                    if target.follows_swapchain {
                        following.push(key);
                    }
                },
                None => {},
            }
            i += 1;
            proof {
                let now = keys@.take(i as int);
                assert(now == seen.push(key));
                assert(!earlier.contains(key));
                assert forall|other: usize|
                    following@.contains(other) <==> self@.restrict(now.to_set()).contains_key(other)
                        && self@.restrict(now.to_set())[other].follows_swapchain by {
                    lemma_push_contains(seen, key, other);
                    lemma_push_contains(earlier, key, other);
                }
            }
        }
        proof {
            assert(keys@.take(i as int) == keys@);
        }
        following
    }

    /// Recreates every target that follows the swapchain at
    /// `swapchain_size`, keeping its key and format, and returns the keys of
    /// these targets. Fixed targets are left alone.
    pub fn resize_following(&mut self, swapchain_size: [u32; 2]) -> (resized: Vec<usize>)
        ensures
            final(self)@ == follow_swapchain(old(self)@, swapchain_size),
            lists_following(old(self)@, resized@),
    {
        let ghost before = self@;
        let resizable = self.following_keys();
        let mut i: usize = 0;
        while i < resizable.len()
            invariant
                i <= resizable.len(),
                lists_following(before, resizable@),
                self@.dom() == before.dom(),
                forall|key: usize| #[trigger]
                    before.contains_key(key) ==> self@[key] == (if resizable@.take(
                        i as int,
                    ).contains(key) {
                        before[key].resized_to(swapchain_size)
                    } else {
                        before[key]
                    }),
            decreases resizable.len() - i,
        {
            let key = resizable[i];
            let ghost done = resizable@.take(i as int);
            proof {
                assert(resizable@.contains(key));
            }
            match self.get(key) {
                Some(target) => {
                    let format = target.format;
                    self.remove(key);
                    self.insert(
                        key,
                        ImageTarget { size: swapchain_size, format, follows_swapchain: true },
                    );
                },
                None => {},
            }
            i += 1;
            proof {
                let now = resizable@.take(i as int);
                assert(now == done.push(key));
                assert forall|other: usize| #[trigger]
                    before.contains_key(other) implies self@[other] == (if now.contains(other) {
                    before[other].resized_to(swapchain_size)
                } else {
                    before[other]
                }) by {
                    lemma_push_contains(done, key, other);
                }
            }
        }
        proof {
            assert(resizable@.take(i as int) == resizable@);
        }
        resizable
    }
}

/// A sequence extended by one element holds that element and whatever it
/// held before.
proof fn lemma_push_contains(items: Seq<usize>, item: usize, other: usize)
    ensures
        items.push(item).contains(other) <==> items.contains(other) || other == item,
{
    if items.contains(other) {
        let at = items.index_of(other);
        assert(items.push(item)[at] == other);
    }
    if other == item {
        assert(items.push(item)[items.len() as int] == other);
    }
    if items.push(item).contains(other) {
        let at = items.push(item).index_of(other);
        if at < items.len() {
            assert(items[at] == other);
        }
    }
}

} // verus!
