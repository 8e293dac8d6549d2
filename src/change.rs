use vstd::prelude::*;
use vstd::string::StringExecFns;

verus! {

/// What kind of filesystem change the watcher observed.
#[derive(Clone, Copy, Debug, PartialEq, Eq, Structural)]
pub enum ChangeKind {
    Created,
    ModifiedData,
    ModifiedMetadata,
    Removed,
    Other,
}

/// One change reported by the watcher: its kind and the paths it touched, in
/// the order the watcher listed them.
#[derive(Clone, Debug)]
pub struct ChangeEvent {
    pub kind: ChangeKind,
    pub paths: Vec<String>,
}

impl ChangeEvent {
    /// The paths as character sequences.
    pub open spec fn path_views(&self) -> Seq<Seq<char>> {
        self.paths@.map_values(|p: String| p@)
    }
}

/// The text that precedes the changed path in every notification.
pub open spec fn notice_prefix() -> Seq<char> {
    "File changed "@
}

/// The notification owed for a change: only a content edit with at least one
/// path triggers one, and it names the first path.
pub open spec fn notice_of(kind: ChangeKind, paths: Seq<Seq<char>>) -> Option<Seq<char>> {
    if kind == ChangeKind::ModifiedData && paths.len() > 0 {
        Some(notice_prefix() + paths[0])
    } else {
        None
    }
}

/// An optional string as an optional character sequence.
pub open spec fn opt_view(o: Option<String>) -> Option<Seq<char>> {
    match o {
        Some(s) => Some(s@),
        None => None,
    }
}

/// Builds the text frame payload for `event`, or `None` when the change must
/// not reach the client.
pub fn notification_for(event: &ChangeEvent) -> (r: Option<String>)
    ensures
        opt_view(r) == notice_of(event.kind, event.path_views()),
{
    if event.kind == ChangeKind::ModifiedData && event.paths.len() > 0 {
        proof {
            reveal_strlit("File changed ");
        }
        let text = String::from_str("File changed ").concat(event.paths[0].as_str());
        Some(text)
    } else {
        None
    }
}

} // verus!
