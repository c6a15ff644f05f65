//! The materialization plan: the exact sequence of directory-creation and
//! file-copy steps that replays a populated index onto an output root.
//!
//! The plan mirrors the index: first the directory implied by the first
//! avatar entry and one copy per avatar, then per user a sticker directory
//! and one copy per sticker, then per user with images an images directory
//! and one copy per image. Every copy lands at the source path placed under
//! the output root, with `.jpg` appended to extensionless names. The caller
//! executes the steps in order; an empty avatar list is refused up front,
//! before any step is produced.

use crate::cache::{GarenaCache, UserImagesModel, UserStickerModel};
use crate::paths::{copy_destination, join_path, spec_copy_dest, spec_join};
use vstd::prelude::*;

verus! {

/// One materialization step, over plain path strings.
#[derive(Debug, Clone, PartialEq, Eq)]
pub enum OutputAction {
    /// Create this directory, with any missing parents.
    CreateDir(String),
    /// Copy the file at `source` to `dest`, best-effort.
    CopyFile { source: String, dest: String },
}

/// One materialization step, over character sequences.
pub ghost enum ActionModel {
    CreateDir(Seq<char>),
    CopyFile { source: Seq<char>, dest: Seq<char> },
}

impl View for OutputAction {
    type V = ActionModel;

    open spec fn view(&self) -> ActionModel {
        match self {
            OutputAction::CreateDir(d) => ActionModel::CreateDir(d@),
            OutputAction::CopyFile { source, dest } => ActionModel::CopyFile {
                source: source@,
                dest: dest@,
            },
        }
    }
}

impl DeepView for OutputAction {
    type V = ActionModel;

    open spec fn deep_view(&self) -> ActionModel {
        self@
    }
}

/// Why no plan could be produced.
#[derive(Debug, Clone, PartialEq, Eq)]
pub enum OutputError {
    /// The index holds no avatar entry, so the directory keyed off the first
    /// avatar path cannot be derived; the run must abort before any copying.
    NoAvatars,
}

/// The copy step for one source file.
pub open spec fn spec_copy_action(root: Seq<char>, file: Seq<char>) -> ActionModel {
    ActionModel::CopyFile { source: file, dest: spec_copy_dest(root, file) }
}

/// The copy steps for the first `n` of `files`, in order.
pub open spec fn spec_copy_actions(root: Seq<char>, files: Seq<Seq<char>>, n: int) -> Seq<
    ActionModel,
>
    decreases n,
{
    if n <= 0 {
        Seq::empty()
    } else {
        spec_copy_actions(root, files, n - 1).push(spec_copy_action(root, files[n - 1]))
    }
}

/// The avatar steps: the directory implied by the first avatar entry, then
/// one copy per entry. Meaningful only for a non-empty avatar list.
pub open spec fn spec_avatar_actions(root: Seq<char>, avatars: Seq<Seq<char>>) -> Seq<ActionModel> {
    seq![ActionModel::CreateDir(spec_join(root, avatars[0]))] + spec_copy_actions(
        root,
        avatars,
        avatars.len() as int,
    )
}

/// One user's sticker steps: the user's directory, then one copy per sticker.
pub open spec fn spec_sticker_user_actions(root: Seq<char>, u: UserStickerModel) -> Seq<
    ActionModel,
> {
    seq![ActionModel::CreateDir(spec_join(root, u.user))] + spec_copy_actions(
        root,
        u.stickers,
        u.stickers.len() as int,
    )
}

/// The sticker steps of the first `n` users, in order.
pub open spec fn spec_sticker_actions(root: Seq<char>, sets: Seq<UserStickerModel>, n: int) -> Seq<
    ActionModel,
>
    decreases n,
{
    if n <= 0 {
        Seq::empty()
    } else {
        spec_sticker_actions(root, sets, n - 1) + spec_sticker_user_actions(root, sets[n - 1])
    }
}

/// One user's image steps: the user's `images` directory, then one copy per
/// image. A user with no recorded images gets no steps at all — in
/// particular, no empty `images` directory is created for them.
pub open spec fn spec_image_user_actions(root: Seq<char>, u: UserImagesModel) -> Seq<ActionModel> {
    if u.images.len() == 0 {
        Seq::empty()
    } else {
        seq![ActionModel::CreateDir(spec_join(root, spec_join(u.user, "images"@)))]
            + spec_copy_actions(root, u.images, u.images.len() as int)
    }
}

/// The image steps of the first `n` users, in order.
pub open spec fn spec_image_actions(root: Seq<char>, sets: Seq<UserImagesModel>, n: int) -> Seq<
    ActionModel,
>
    decreases n,
{
    if n <= 0 {
        Seq::empty()
    } else {
        spec_image_actions(root, sets, n - 1) + spec_image_user_actions(root, sets[n - 1])
    }
}

/// The whole plan for an index: avatar steps, then sticker steps, then image
/// steps.
pub open spec fn spec_output_actions(
    avatars: Seq<Seq<char>>,
    stickers: Seq<UserStickerModel>,
    images: Seq<UserImagesModel>,
    root: Seq<char>,
) -> Seq<ActionModel> {
    spec_avatar_actions(root, avatars) + spec_sticker_actions(root, stickers, stickers.len() as int)
        + spec_image_actions(root, images, images.len() as int)
}

impl GarenaCache {
    /// Computes the materialization plan for this index under the output
    /// root `path`: exactly the steps of `spec_output_actions`, in order.
    /// An index with no avatar entry yields `Err(OutputError::NoAvatars)`
    /// and no steps, and that is the only error.
    #[verifier::loop_isolation(false)]
    pub fn generate_output(&self, path: &str) -> (r: Result<Vec<OutputAction>, OutputError>)
        ensures
            r is Err <==> self.avatars@.len() == 0,
            r is Err ==> r == Err::<Vec<OutputAction>, OutputError>(OutputError::NoAvatars),
            r matches Ok(plan) ==> plan.deep_view() == spec_output_actions(
                self.avatars.deep_view(),
                self.user_stickers.deep_view(),
                self.user_images.deep_view(),
                path@,
            ),
    {
        if self.avatars.len() == 0 {
            return Err(OutputError::NoAvatars);
        }
        let ghost root = path@;
        let ghost av = self.avatars.deep_view();
        let ghost st = self.user_stickers.deep_view();
        let ghost im = self.user_images.deep_view();

        let mut actions: Vec<OutputAction> = Vec::new();
        actions.push(OutputAction::CreateDir(join_path(path, self.avatars[0].as_str())));
        proof {
            assert(actions.deep_view() =~= seq![ActionModel::CreateDir(spec_join(root, av[0]))]);
        }
        let mut i: usize = 0;
        while i < self.avatars.len()
            invariant
                0 <= i <= self.avatars@.len(),
                actions.deep_view() =~= seq![ActionModel::CreateDir(spec_join(root, av[0]))]
                    + spec_copy_actions(root, av, i as int),
            decreases self.avatars@.len() - i,
        {
            let ghost prev = actions.deep_view();
            let dest = copy_destination(path, self.avatars[i].as_str());
            actions.push(OutputAction::CopyFile { source: self.avatars[i].clone(), dest });
            proof {
                assert(actions.deep_view() =~= prev.push(spec_copy_action(root, av[i as int])));
            }
            i = i + 1;
        }
        proof {
            assert(actions.deep_view() =~= spec_avatar_actions(root, av));
        }

        let mut j: usize = 0;
        while j < self.user_stickers.len()
            invariant
                0 <= j <= self.user_stickers@.len(),
                actions.deep_view() =~= spec_avatar_actions(root, av) + spec_sticker_actions(
                    root,
                    st,
                    j as int,
                ),
            decreases self.user_stickers@.len() - j,
        {
            let ghost outer = actions.deep_view();
            let user = &self.user_stickers[j];
            actions.push(OutputAction::CreateDir(join_path(path, user.user.as_str())));
            proof {
                assert(actions.deep_view() =~= outer + seq![ActionModel::CreateDir(
                    spec_join(root, st[j as int].user),
                )]);
            }
            let mut m: usize = 0;
            while m < user.stickers.len()
                invariant
                    0 <= m <= user.stickers@.len(),
                    actions.deep_view() =~= outer + seq![ActionModel::CreateDir(
                        spec_join(root, st[j as int].user),
                    )] + spec_copy_actions(root, st[j as int].stickers, m as int),
                decreases user.stickers@.len() - m,
            {
                let ghost prev = actions.deep_view();
                let dest = copy_destination(path, user.stickers[m].as_str());
                actions.push(OutputAction::CopyFile { source: user.stickers[m].clone(), dest });
                proof {
                    assert(actions.deep_view() =~= prev.push(
                        spec_copy_action(root, st[j as int].stickers[m as int]),
                    ));
                }
                m = m + 1;
            }
            proof {
                assert(actions.deep_view() =~= outer + spec_sticker_user_actions(
                    root,
                    st[j as int],
                ));
                assert(outer + spec_sticker_user_actions(root, st[j as int])
                    =~= spec_avatar_actions(root, av) + spec_sticker_actions(root, st, j + 1));
            }
            j = j + 1;
        }

        let ghost mid = spec_avatar_actions(root, av) + spec_sticker_actions(
            root,
            st,
            st.len() as int,
        );
        let mut j: usize = 0;
        while j < self.user_images.len()
            invariant
                0 <= j <= self.user_images@.len(),
                actions.deep_view() =~= mid + spec_image_actions(root, im, j as int),
            decreases self.user_images@.len() - j,
        {
            let ghost outer = actions.deep_view();
            let user = &self.user_images[j];
            if user.images.len() > 0 {
                let dir = join_path(path, user.get_user_images_path().as_str());
                actions.push(OutputAction::CreateDir(dir));
                proof {
                    assert(actions.deep_view() =~= outer + seq![ActionModel::CreateDir(
                        spec_join(root, spec_join(im[j as int].user, "images"@)),
                    )]);
                }
                let mut m: usize = 0;
                while m < user.images.len()
                    invariant
                        0 <= m <= user.images@.len(),
                        actions.deep_view() =~= outer + seq![ActionModel::CreateDir(
                            spec_join(root, spec_join(im[j as int].user, "images"@)),
                        )] + spec_copy_actions(root, im[j as int].images, m as int),
                    decreases user.images@.len() - m,
                {
                    let ghost prev = actions.deep_view();
                    let dest = copy_destination(path, user.images[m].as_str());
                    actions.push(OutputAction::CopyFile { source: user.images[m].clone(), dest });
                    proof {
                        assert(actions.deep_view() =~= prev.push(
                            spec_copy_action(root, im[j as int].images[m as int]),
                        ));
                    }
                    m = m + 1;
                }
            }
            proof {
                assert(actions.deep_view() =~= outer + spec_image_user_actions(
                    root,
                    im[j as int],
                ));
                assert(outer + spec_image_user_actions(root, im[j as int]) =~= mid
                    + spec_image_actions(root, im, j + 1));
            }
            j = j + 1;
        }
        proof {
            assert(actions.deep_view() =~= spec_output_actions(av, st, im, root));
        }
        Ok(actions)
    }
}

} // verus!
