//! The in-memory index of a messaging application's asset cache: a flat list
//! of avatar entries, one sticker set per user, and one image set per user.
//!
//! The index is populated from directory-walk results handed in as plain path
//! lists; the caller performs the walks. Every load records the given entries
//! verbatim, in order, and touches nothing else.

use vstd::prelude::*;

verus! {

/// One user's sticker collection: the user's identifying path segment and
/// every entry found recursively beneath that user's directory.
pub struct GarenaUserSticker {
    pub user: String,
    pub stickers: Vec<String>,
}

/// The mathematical shape of a sticker set: the user's path and sticker
/// paths as character sequences.
pub ghost struct UserStickerModel {
    pub user: Seq<char>,
    pub stickers: Seq<Seq<char>>,
}

impl DeepView for GarenaUserSticker {
    type V = UserStickerModel;

    open spec fn deep_view(&self) -> UserStickerModel {
        UserStickerModel { user: self.user@, stickers: self.stickers.deep_view() }
    }
}

/// The mathematical shape of an image set: the user's path and image paths
/// as character sequences.
pub ghost struct UserImagesModel {
    pub user: Seq<char>,
    pub images: Seq<Seq<char>>,
}

/// One user's image collection: the user's identifying path segment and every
/// entry found recursively under `<user>/images`, when that directory exists.
pub struct GarenaUserImages {
    pub user: String,
    pub images: Vec<String>,
}

impl DeepView for GarenaUserImages {
    type V = UserImagesModel;

    open spec fn deep_view(&self) -> UserImagesModel {
        UserImagesModel { user: self.user@, images: self.images.deep_view() }
    }
}

impl GarenaUserImages {
    /// The directory images of this user live under: `<user>/images`.
    pub fn get_user_images_path(&self) -> (r: String)
        ensures
            r@ == crate::paths::spec_join(self.user@, "images"@),
    {
        crate::paths::join_path(self.user.as_str(), "images")
    }
}

/// The root aggregate: everything the indexer discovered, ready to be
/// replayed onto an output tree.
pub struct GarenaCache {
    pub avatars: Vec<String>,
    pub user_stickers: Vec<GarenaUserSticker>,
    pub user_images: Vec<GarenaUserImages>,
}

impl GarenaCache {
    /// An empty index, the only starting point: each collection is populated
    /// exactly once by the corresponding load.
    pub fn new() -> (c: GarenaCache)
        ensures
            c.avatars@ == Seq::<String>::empty(),
            c.user_stickers@ == Seq::<GarenaUserSticker>::empty(),
            c.user_images@ == Seq::<GarenaUserImages>::empty(),
    {
        GarenaCache { avatars: Vec::new(), user_stickers: Vec::new(), user_images: Vec::new() }
    }

    /// Records the avatar-root walk: every entry observed under the avatar
    /// root, appended in traversal order, each exactly once. Sticker and
    /// image sets are untouched.
    pub fn load_avatar(&mut self, entries: Vec<String>)
        ensures
            final(self).avatars@ == old(self).avatars@ + entries@,
            final(self).user_stickers@ == old(self).user_stickers@,
            final(self).user_images@ == old(self).user_images@,
    {
        let mut entries = entries;
        self.avatars.append(&mut entries);
    }

    /// Records the sticker-root walk: one new set per user, in order, holding
    /// that user's path and exactly the entries walked beneath it. `users`
    /// are the immediate children of the sticker root; `walks[i]` is the
    /// recursive walk of `users[i]`. Avatars and image sets are untouched.
    #[verifier::loop_isolation(false)]
    pub fn load_all_user_stickers(&mut self, users: Vec<String>, walks: Vec<Vec<String>>)
        requires
            users@.len() == walks@.len(),
        ensures
            final(self).avatars@ == old(self).avatars@,
            final(self).user_images@ == old(self).user_images@,
            final(self).user_stickers@.len() == old(self).user_stickers@.len() + users@.len(),
            forall|i: int|
                0 <= i < old(self).user_stickers@.len() ==> final(self).user_stickers@[i] == old(
                    self,
                ).user_stickers@[i],
            forall|i: int|
                #![trigger users@[i]]
                0 <= i < users@.len() ==> {
                    let s = final(self).user_stickers@[old(self).user_stickers@.len() + i];
                    s.user == users@[i] && s.stickers == walks@[i]
                },
    {
        let mut users = users;
        let mut walks = walks;
        let ghost users0 = users@;
        let ghost walks0 = walks@;
        let ghost n = users0.len() as int;
        let ghost base = old(self).user_stickers@.len() as int;
        let ghost mut k: int = 0;
        while users.len() > 0
            invariant
                0 <= k <= n,
                users@ == users0.subrange(k, n),
                walks@ == walks0.subrange(k, n),
                users0.len() == n && walks0.len() == n,
                self.avatars@ == old(self).avatars@,
                self.user_images@ == old(self).user_images@,
                self.user_stickers@.len() == base + k,
                forall|i: int|
                    0 <= i < base ==> self.user_stickers@[i] == old(self).user_stickers@[i],
                forall|i: int|
                    #![trigger users0[i]]
                    0 <= i < k ==> {
                        let s = self.user_stickers@[base + i];
                        s.user == users0[i] && s.stickers == walks0[i]
                    },
            decreases users@.len(),
        {
            let user = users.remove(0);
            let stickers = walks.remove(0);
            proof {
                assert(user == users0[k]);
                assert(stickers == walks0[k]);
                assert(users0.subrange(k, n).remove(0) =~= users0.subrange(k + 1, n));
                assert(walks0.subrange(k, n).remove(0) =~= walks0.subrange(k + 1, n));
            }
            let ghost prev = self.user_stickers@;
            self.user_stickers.push(GarenaUserSticker { user, stickers });
            proof {
                k = k + 1;
                assert forall|i: int| #![trigger users0[i]] 0 <= i < k implies {
                    let s = self.user_stickers@[base + i];
                    s.user == users0[i] && s.stickers == walks0[i]
                } by {
                    if i < k - 1 {
                        assert(self.user_stickers@[base + i] == prev[base + i]);
                    }
                }
            }
        }
    }

    /// Records the image-root walk: one new set per user, in order. `users`
    /// are the immediate children of the image root; `walks[i]` is the
    /// recursive walk of `<users[i]>/images` when that directory exists, and
    /// `None` when it does not, which leaves the set's images empty — an
    /// absent per-user images directory is no error. Avatars and sticker
    /// sets are untouched.
    #[verifier::loop_isolation(false)]
    pub fn load_all_user_images(&mut self, users: Vec<String>, walks: Vec<Option<Vec<String>>>)
        requires
            users@.len() == walks@.len(),
        ensures
            final(self).avatars@ == old(self).avatars@,
            final(self).user_stickers@ == old(self).user_stickers@,
            final(self).user_images@.len() == old(self).user_images@.len() + users@.len(),
            forall|i: int|
                0 <= i < old(self).user_images@.len() ==> final(self).user_images@[i] == old(
                    self,
                ).user_images@[i],
            forall|i: int|
                #![trigger users@[i]]
                0 <= i < users@.len() ==> {
                    let s = final(self).user_images@[old(self).user_images@.len() + i];
                    s.user == users@[i] && (match walks@[i] {
                        Some(w) => s.images == w,
                        None => s.images@ == Seq::<String>::empty(),
                    })
                },
    {
        let mut users = users;
        let mut walks = walks;
        let ghost users0 = users@;
        let ghost walks0 = walks@;
        let ghost n = users0.len() as int;
        let ghost base = old(self).user_images@.len() as int;
        let ghost mut k: int = 0;
        while users.len() > 0
            invariant
                0 <= k <= n,
                users@ == users0.subrange(k, n),
                walks@ == walks0.subrange(k, n),
                users0.len() == n && walks0.len() == n,
                self.avatars@ == old(self).avatars@,
                self.user_stickers@ == old(self).user_stickers@,
                self.user_images@.len() == base + k,
                forall|i: int|
                    0 <= i < base ==> self.user_images@[i] == old(self).user_images@[i],
                forall|i: int|
                    #![trigger users0[i]]
                    0 <= i < k ==> {
                        let s = self.user_images@[base + i];
                        s.user == users0[i] && (match walks0[i] {
                            Some(w) => s.images == w,
                            None => s.images@ == Seq::<String>::empty(),
                        })
                    },
            decreases users@.len(),
        {
            let user = users.remove(0);
            let walk = walks.remove(0);
            proof {
                assert(user == users0[k]);
                assert(walk == walks0[k]);
                assert(users0.subrange(k, n).remove(0) =~= users0.subrange(k + 1, n));
                assert(walks0.subrange(k, n).remove(0) =~= walks0.subrange(k + 1, n));
            }
            let images = match walk {
                Some(w) => w,
                None => Vec::new(),
            };
            let ghost gu = user;
            let ghost gi = images;
            let ghost prev = self.user_images@;
            self.user_images.push(GarenaUserImages { user, images });
            proof {
                k = k + 1;
                assert forall|i: int| #![trigger users0[i]] 0 <= i < k implies {
                    let s = self.user_images@[base + i];
                    s.user == users0[i] && (match walks0[i] {
                        Some(w) => s.images == w,
                        None => s.images@ == Seq::<String>::empty(),
                    })
                } by {
                    if i < k - 1 {
                        assert(self.user_images@[base + i] == prev[base + i]);
                    } else {
                        assert(self.user_images@[base + i] == (GarenaUserImages {
                            user: gu,
                            images: gi,
                        }));
                    }
                }
            }
        }
    }
}

} // verus!
