//! A model of executing a materialization plan against an output tree, and
//! the law that replaying the same plan over an unchanged source tree leaves
//! the output exactly as after the first run.

use crate::cache::{UserImagesModel, UserStickerModel};
use crate::output::{spec_output_actions, ActionModel};
use vstd::prelude::*;

verus! {

/// The state of the output tree: each file's content keyed by path, and the
/// set of directories that exist.
#[verifier::ext_equal]
pub ghost struct DiskModel {
    pub files: Map<Seq<char>, Seq<char>>,
    pub dirs: Set<Seq<char>>,
}

/// The effect of one step on the output tree. `src_tree` gives the content
/// of every source file that exists; copying a missing source changes
/// nothing (copies are best-effort), and copying an existing one overwrites
/// the destination with its content.
pub open spec fn spec_apply_action(
    src_tree: Map<Seq<char>, Seq<char>>,
    t: DiskModel,
    a: ActionModel,
) -> DiskModel {
    match a {
        ActionModel::CreateDir(d) => DiskModel { files: t.files, dirs: t.dirs.insert(d) },
        ActionModel::CopyFile { source, dest } => if src_tree.contains_key(source) {
            DiskModel { files: t.files.insert(dest, src_tree[source]), dirs: t.dirs }
        } else {
            t
        },
    }
}

/// The output tree after executing the steps of `s` in order.
pub open spec fn spec_apply_actions(
    src_tree: Map<Seq<char>, Seq<char>>,
    t: DiskModel,
    s: Seq<ActionModel>,
) -> DiskModel
    decreases s.len(),
{
    if s.len() == 0 {
        t
    } else {
        spec_apply_actions(src_tree, spec_apply_action(src_tree, t, s[0]), s.subrange(1, s.len() as int))
    }
}

/// The file contents one step writes: nothing for a directory step or a copy
/// whose source is missing, the copied content at the destination otherwise.
pub open spec fn spec_action_file_writes(
    src_tree: Map<Seq<char>, Seq<char>>,
    a: ActionModel,
) -> Map<Seq<char>, Seq<char>> {
    match a {
        ActionModel::CreateDir(_) => Map::empty(),
        ActionModel::CopyFile { source, dest } => if src_tree.contains_key(source) {
            Map::empty().insert(dest, src_tree[source])
        } else {
            Map::empty()
        },
    }
}

/// The file contents a whole plan writes, later steps overriding earlier
/// ones.
pub open spec fn spec_file_writes(
    src_tree: Map<Seq<char>, Seq<char>>,
    s: Seq<ActionModel>,
) -> Map<Seq<char>, Seq<char>>
    decreases s.len(),
{
    if s.len() == 0 {
        Map::empty()
    } else {
        spec_action_file_writes(src_tree, s[0]).union_prefer_right(
            spec_file_writes(src_tree, s.subrange(1, s.len() as int)),
        )
    }
}

/// The directories one step creates.
pub open spec fn spec_action_dir_writes(a: ActionModel) -> Set<Seq<char>> {
    match a {
        ActionModel::CreateDir(d) => Set::empty().insert(d),
        ActionModel::CopyFile { .. } => Set::empty(),
    }
}

/// The directories a whole plan creates.
pub open spec fn spec_dir_writes(s: Seq<ActionModel>) -> Set<Seq<char>>
    decreases s.len(),
{
    if s.len() == 0 {
        Set::empty()
    } else {
        spec_action_dir_writes(s[0]).union(spec_dir_writes(s.subrange(1, s.len() as int)))
    }
}

/// Executing a plan amounts to overriding the starting tree with the plan's
/// writes: the files it copies, later steps winning, and the directories it
/// creates. In particular the result depends on the starting tree only at
/// paths the plan does not write.
pub proof fn lemma_apply_actions_decomposes(
    src_tree: Map<Seq<char>, Seq<char>>,
    t: DiskModel,
    s: Seq<ActionModel>,
)
    ensures
        spec_apply_actions(src_tree, t, s) == (DiskModel {
            files: t.files.union_prefer_right(spec_file_writes(src_tree, s)),
            dirs: t.dirs.union(spec_dir_writes(s)),
        }),
    decreases s.len(),
{
    if s.len() == 0 {
        assert(t.files.union_prefer_right(spec_file_writes(src_tree, s)) =~= t.files);
        assert(t.dirs.union(spec_dir_writes(s)) =~= t.dirs);
        assert(spec_apply_actions(src_tree, t, s) =~= DiskModel {
            files: t.files.union_prefer_right(spec_file_writes(src_tree, s)),
            dirs: t.dirs.union(spec_dir_writes(s)),
        });
    } else {
        let rest = s.subrange(1, s.len() as int);
        let t1 = spec_apply_action(src_tree, t, s[0]);
        lemma_apply_actions_decomposes(src_tree, t1, rest);
        assert(t1.files.union_prefer_right(spec_file_writes(src_tree, rest))
            =~= t.files.union_prefer_right(spec_file_writes(src_tree, s)));
        assert(t1.dirs.union(spec_dir_writes(rest)) =~= t.dirs.union(spec_dir_writes(s)));
        assert(spec_apply_actions(src_tree, t, s) =~= DiskModel {
            files: t.files.union_prefer_right(spec_file_writes(src_tree, s)),
            dirs: t.dirs.union(spec_dir_writes(s)),
        });
    }
}

/// Materialization is idempotent: running the same plan a second time, with
/// the source tree unchanged, leaves the output tree exactly as after the
/// first run — every copy overwrites its destination with the same content,
/// and every directory already exists.
pub proof fn lemma_materialization_idempotent(
    src_tree: Map<Seq<char>, Seq<char>>,
    t: DiskModel,
    s: Seq<ActionModel>,
)
    ensures
        spec_apply_actions(src_tree, spec_apply_actions(src_tree, t, s), s) == spec_apply_actions(
            src_tree,
            t,
            s,
        ),
{
    let w = spec_file_writes(src_tree, s);
    let d = spec_dir_writes(s);
    let t1 = spec_apply_actions(src_tree, t, s);
    lemma_apply_actions_decomposes(src_tree, t, s);
    lemma_apply_actions_decomposes(src_tree, t1, s);
    assert(t1.files.union_prefer_right(w) =~= t.files.union_prefer_right(w));
    assert(t1.dirs.union(d) =~= t.dirs.union(d));
    assert(spec_apply_actions(src_tree, t1, s) =~= t1);
}

/// Running materialization twice — the plan of one unchanged index, replayed
/// over an unchanged source tree and a pre-existing output tree — yields the
/// same final output content as running it once.
pub proof fn lemma_second_run_changes_nothing(
    src_tree: Map<Seq<char>, Seq<char>>,
    t: DiskModel,
    avatars: Seq<Seq<char>>,
    stickers: Seq<UserStickerModel>,
    images: Seq<UserImagesModel>,
    root: Seq<char>,
)
    ensures
        ({
            let plan = spec_output_actions(avatars, stickers, images, root);
            spec_apply_actions(src_tree, spec_apply_actions(src_tree, t, plan), plan)
                == spec_apply_actions(src_tree, t, plan)
        }),
{
    lemma_materialization_idempotent(
        src_tree,
        t,
        spec_output_actions(avatars, stickers, images, root),
    );
}

} // verus!
