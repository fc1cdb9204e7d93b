//! Context handed to hooks about the item they run for.
use vstd::prelude::*;

use crate::text::owned;
use crate::types::EntityType;

verus! {

/// What a hook is told about the item it runs for.
#[derive(Debug)]
pub struct HookContext {
    pub item_type: Option<EntityType>,
    pub item_id: Option<String>,
    pub file_path: Option<String>,
}

/// Two optional strings hold the same characters.
pub open spec fn same_text(a: Option<String>, b: Option<String>) -> bool {
    match (a, b) {
        (Some(x), Some(y)) => x@ == y@,
        (None, None) => true,
        _ => false,
    }
}

/// `ctx` describes an item of type `t` with id `id` and file path `path`.
pub open spec fn hook_context_of(
    ctx: HookContext,
    t: EntityType,
    id: Option<String>,
    path: Option<String>,
) -> bool {
    ctx.item_type == Some(t) && same_text(ctx.item_id, id) && same_text(ctx.file_path, path)
}

impl HookContext {
    /// An empty context.
    pub fn new() -> (r: HookContext)
        ensures
            r.item_type is None,
            r.item_id is None,
            r.file_path is None,
    {
        HookContext { item_type: None, item_id: None, file_path: None }
    }

    /// This context with its item type set.
    pub fn with_item_type(self, t: EntityType) -> (r: HookContext)
        ensures
            r.item_type == Some(t),
            r.item_id == self.item_id,
            r.file_path == self.file_path,
    {
        HookContext { item_type: Some(t), ..self }
    }

    /// This context with its item id set.
    pub fn with_item_id(self, id: &str) -> (r: HookContext)
        ensures
            r.item_type == self.item_type,
            r.item_id is Some && r.item_id->0@ == id@,
            r.file_path == self.file_path,
    {
        HookContext { item_id: Some(owned(id)), ..self }
    }

    /// This context with its file path set.
    pub fn with_file_path(self, path: &str) -> (r: HookContext)
        ensures
            r.item_type == self.item_type,
            r.item_id == self.item_id,
            r.file_path is Some && r.file_path->0@ == path@,
    {
        HookContext { file_path: Some(owned(path)), ..self }
    }
}

} // verus!
