//! The template in which the user lays out every spending path by hand.

use crate::installer::message::{DefineDescriptor, Message};
use crate::installer::view::descriptor::{next_if, next_when};
use crate::installer::view::layout::{layout, Layout};
use crate::text::{decimal, push_decimal};
use vstd::prelude::*;
use vstd::string::StringExecFns;

verus! {

/// A key of the wallet, by what the template shows of it.
#[derive(Debug, PartialEq, Eq)]
pub struct Key {
    /// The name the user gave the key.
    pub name: String,
    /// Whether the device that holds the key can sign for Taproot.
    pub is_compatible_taproot: bool,
}

/// A spending path as the user has laid it out so far.
#[derive(Debug, PartialEq, Eq)]
pub struct Path<'a> {
    /// The places for keys, each holding a key or still empty.
    pub keys: Vec<Option<&'a Key>>,
    /// The number of blocks after which the path can spend.
    pub sequence: u16,
    /// Whether another path has the same number of blocks.
    pub duplicate_sequence: bool,
    /// How many of the keys must sign.
    pub threshold: usize,
}

/// Which of the two kinds a path is of.
#[derive(Debug, Clone, Copy, PartialEq, Eq, Structural)]
pub enum PathKind {
    /// The path that can always spend.
    Primary,
    /// A path that can spend after a time of inactivity.
    Recovery,
}

/// What the card of a key says where the key's device cannot sign for
/// Taproot and the wallet uses it.
pub const TAPROOT_WARNING: &'static str = "This device does not support Taproot";

/// One place for a key, on screen.
#[derive(Debug, PartialEq, Eq)]
pub enum KeySlot {
    /// A place that holds a key.
    Defined {
        /// The key's name.
        name: String,
        /// A warning about the key, if there is one to give.
        warning: Option<&'static str>,
        /// Whether the place cannot be removed.
        fixed: bool,
    },
    /// A place that is still empty.
    Undefined {
        /// Whether a key can be given for this place now.
        active: bool,
        /// Whether the place cannot be removed.
        fixed: bool,
    },
}

/// Whether every place before place `i` holds a key.
pub open spec fn all_defined_before(keys: Seq<Option<&Key>>, i: int) -> bool {
    forall|k: int| 0 <= k < i ==> (#[trigger] keys[k]) is Some
}

/// Place `i` of a path, on screen. A key is given for the empty places in
/// order, so an empty place is active only if no place before it is empty.
/// Only the first place of the primary path cannot be removed.
pub open spec fn key_slot(
    kind: PathKind,
    use_taproot: bool,
    keys: Seq<Option<&Key>>,
    i: int,
) -> KeySlot {
    let fixed = kind == PathKind::Primary && i == 0;
    match keys[i] {
        Some(key) => KeySlot::Defined {
            name: key.name,
            warning: if use_taproot && !key.is_compatible_taproot {
                Some(TAPROOT_WARNING)
            } else {
                None
            },
            fixed,
        },
        None => KeySlot::Undefined { active: all_defined_before(keys, i), fixed },
    }
}

/// The active place of a path is its first empty place.
pub proof fn active_slot_is_first_empty(
    kind: PathKind,
    use_taproot: bool,
    keys: Seq<Option<&Key>>,
    i: int,
)
    requires
        0 <= i < keys.len(),
    ensures
        key_slot(kind, use_taproot, keys, i) matches KeySlot::Undefined { active: true, .. } <==> {
            &&& keys[i] is None
            &&& forall|k: int| 0 <= k < i ==> (#[trigger] keys[k]) is Some
        },
{
}

/// A path has at most one active place.
pub proof fn at_most_one_active_slot(
    kind: PathKind,
    use_taproot: bool,
    keys: Seq<Option<&Key>>,
    i: int,
    j: int,
)
    requires
        0 <= i < keys.len(),
        0 <= j < keys.len(),
        key_slot(kind, use_taproot, keys, i) matches KeySlot::Undefined { active: true, .. },
        key_slot(kind, use_taproot, keys, j) matches KeySlot::Undefined { active: true, .. },
    ensures
        i == j,
{
    if i < j {
        assert(keys[i] is Some);
    } else if j < i {
        assert(keys[j] is Some);
    }
}

/// A path with an empty place has an active place.
pub proof fn some_slot_is_active(
    kind: PathKind,
    use_taproot: bool,
    keys: Seq<Option<&Key>>,
    i: int,
)
    requires
        0 <= i < keys.len(),
        keys[i] is None,
    ensures
        exists|j: int|
            0 <= j <= i && (#[trigger] key_slot(kind, use_taproot, keys, j)
                matches KeySlot::Undefined { active: true, .. }),
    decreases i,
{
    if all_defined_before(keys, i) {
        assert(key_slot(kind, use_taproot, keys, i) matches KeySlot::Undefined {
            active: true,
            ..
        });
    } else {
        let k = choose|k: int| 0 <= k < i && !((#[trigger] keys[k]) is Some);
        some_slot_is_active(kind, use_taproot, keys, k);
    }
}

/// The heading of the primary path.
pub const PRIMARY_TITLE: &'static str = "Primary spending option:";

/// What stands before the number in the heading of a recovery path.
pub const RECOVERY_TITLE_OPENING: &'static str = "Recovery option #";

/// What stands after the number in the heading of a recovery path.
pub const RECOVERY_TITLE_CLOSING: &'static str = ":";

/// The heading of a path: the primary path has a heading of its own, a
/// recovery path is numbered by its place among all paths.
pub open spec fn path_title(kind: PathKind, index: usize) -> Seq<char> {
    match kind {
        PathKind::Primary => PRIMARY_TITLE@,
        PathKind::Recovery => RECOVERY_TITLE_OPENING@ + decimal(index as nat)
            + RECOVERY_TITLE_CLOSING@,
    }
}

/// One spending path, on screen.
#[derive(Debug, PartialEq, Eq)]
pub struct PathPanel {
    /// The kind of the path.
    pub kind: PathKind,
    /// The place of the path among all paths: 0 for the primary path. Edits
    /// of the path are sent under this number.
    pub index: usize,
    /// The heading of the path.
    pub title: String,
    /// The number of blocks after which the path can spend.
    pub sequence: u16,
    /// Whether another path has the same number of blocks.
    pub duplicate_sequence: bool,
    /// How many of the keys must sign.
    pub threshold: usize,
    /// The places for keys, in order.
    pub keys: Vec<KeySlot>,
}

impl PathPanel {
    /// Whether this is the panel of `path`, a path of kind `kind` at place
    /// `index` among all paths.
    pub open spec fn shows(
        &self,
        kind: PathKind,
        index: usize,
        use_taproot: bool,
        path: Path,
    ) -> bool {
        &&& self.kind == kind
        &&& self.index == index
        &&& self.title@ == path_title(kind, index)
        &&& self.sequence == path.sequence
        &&& self.duplicate_sequence == path.duplicate_sequence
        &&& self.threshold == path.threshold
        &&& self.keys@.len() == path.keys@.len()
        &&& forall|i: int|
            0 <= i < path.keys@.len() ==> #[trigger] self.keys@[i] == key_slot(
                kind,
                use_taproot,
                path.keys@,
                i,
            )
    }
}

/// The heading of a path.
fn title_of(kind: PathKind, index: usize) -> (title: String)
    ensures
        title@ == path_title(kind, index),
{
    match kind {
        PathKind::Primary => String::from_str(PRIMARY_TITLE),
        PathKind::Recovery => {
            let mut title = String::from_str(RECOVERY_TITLE_OPENING);
            push_decimal(&mut title, index);
            title.append(RECOVERY_TITLE_CLOSING);
            title
        },
    }
}

/// The panel of one spending path.
pub fn path_panel<'a>(kind: PathKind, index: usize, use_taproot: bool, path: &Path<'a>) -> (panel:
    PathPanel)
    ensures
        panel.shows(kind, index, use_taproot, *path),
{
    let mut keys: Vec<KeySlot> = Vec::new();
    let mut all_defined = true;
    let mut i: usize = 0;
    while i < path.keys.len()
        invariant
            i <= path.keys@.len(),
            keys@.len() == i,
            all_defined == all_defined_before(path.keys@, i as int),
            forall|j: int|
                0 <= j < i ==> #[trigger] keys@[j] == key_slot(kind, use_taproot, path.keys@, j),
        decreases path.keys@.len() - i,
    {
        let fixed = match kind {
            PathKind::Primary => i == 0,
            PathKind::Recovery => false,
        };
        let slot = match path.keys[i] {
            Some(key) => KeySlot::Defined {
                name: key.name.clone(),
                warning: if use_taproot && !key.is_compatible_taproot {
                    Some(TAPROOT_WARNING)
                } else {
                    None
                },
                fixed,
            },
            None => KeySlot::Undefined { active: all_defined, fixed },
        };
        proof {
            if path.keys@[i as int] is Some {
                assert(all_defined_before(path.keys@, i + 1) == all_defined_before(
                    path.keys@,
                    i as int,
                ));
            } else {
                assert(!all_defined_before(path.keys@, i + 1));
            }
        }
        all_defined = all_defined && path.keys[i].is_some();
        keys.push(slot);
        i += 1;
    }
    PathPanel {
        kind,
        index,
        title: title_of(kind, index),
        sequence: path.sequence,
        duplicate_sequence: path.duplicate_sequence,
        threshold: path.threshold,
        keys,
    }
}

/// The step that introduces the template.
#[derive(Debug, PartialEq, Eq)]
pub struct CustomTemplateDescription {
    /// What the control to go on sends.
    pub next: Message,
}

/// The step that introduces the template.
pub fn custom_template_description(progress: (usize, usize)) -> (screen: Layout<
    CustomTemplateDescription,
>)
    ensures
        screen.frames(progress),
        screen.content.next == Message::Next,
{
    layout(progress, CustomTemplateDescription { next: Message::Next })
}

/// The step in which the user lays the spending paths out.
#[derive(Debug, PartialEq, Eq)]
pub struct CustomTemplateScreen {
    /// Whether the advanced settings show Taproot as chosen.
    pub use_taproot: bool,
    /// The path that can always spend.
    pub primary: PathPanel,
    /// The recovery paths, in order.
    pub recovery: Vec<PathPanel>,
    /// What the control to add a recovery path sends.
    pub add_recovery_path: Message,
    /// What the control to go on sends, if it can be pressed.
    pub next: Option<Message>,
}

/// The step in which the user lays the spending paths out. The primary path
/// is path 0; the recovery paths follow in order, numbered from 1 in their
/// headings and in what their controls send. One can go on only with a valid
/// layout.
pub fn custom_template<'a>(
    progress: (usize, usize),
    use_taproot: bool,
    primary_path: Path<'a>,
    recovery_paths: Vec<Path<'a>>,
    valid: bool,
) -> (screen: Layout<CustomTemplateScreen>)
    ensures
        screen.frames(progress),
        screen.content.use_taproot == use_taproot,
        screen.content.primary.shows(PathKind::Primary, 0, use_taproot, primary_path),
        screen.content.recovery@.len() == recovery_paths@.len(),
        forall|i: int|
            0 <= i < recovery_paths@.len() ==> (#[trigger] screen.content.recovery@[i]).shows(
                PathKind::Recovery,
                (i + 1) as usize,
                use_taproot,
                recovery_paths@[i],
            ),
        screen.content.add_recovery_path == Message::DefineDescriptor(
            DefineDescriptor::AddRecoveryPath,
        ),
        screen.content.next == next_if(valid),
{
    let mut recovery: Vec<PathPanel> = Vec::new();
    let mut i: usize = 0;
    while i < recovery_paths.len()
        invariant
            i <= recovery_paths@.len(),
            recovery@.len() == i,
            forall|j: int|
                0 <= j < i ==> (#[trigger] recovery@[j]).shows(
                    PathKind::Recovery,
                    (j + 1) as usize,
                    use_taproot,
                    recovery_paths@[j],
                ),
        decreases recovery_paths@.len() - i,
    {
        recovery.push(path_panel(PathKind::Recovery, i + 1, use_taproot, &recovery_paths[i]));
        i += 1;
    }
    layout(
        progress,
        CustomTemplateScreen {
            use_taproot,
            primary: path_panel(PathKind::Primary, 0, use_taproot, &primary_path),
            recovery,
            add_recovery_path: Message::DefineDescriptor(DefineDescriptor::AddRecoveryPath),
            next: next_when(valid),
        },
    )
}

} // verus!
