use vstd::prelude::*;
use crate::color::next_color;
use crate::demo::{DragDropDemo, StoreError, swapped, renamed, copy_name};
use crate::item::ItemView;

verus! {

/// An entry chosen from the context menu of the item at the given position.
#[derive(Clone, Copy, Debug, PartialEq, Eq, Structural)]
pub enum ContextAction {
    ChangeColor(usize),
    Rename(usize),
    Duplicate(usize),
    Delete(usize),
}

/// The position of the item that `a` acts on.
pub open spec fn action_index(a: ContextAction) -> usize {
    match a {
        ContextAction::ChangeColor(i) => i,
        ContextAction::Rename(i) => i,
        ContextAction::Duplicate(i) => i,
        ContextAction::Delete(i) => i,
    }
}

/// The list that `a` makes of `s`, where `action_index(a)` is a position of `s`.
pub open spec fn apply_action(s: Seq<ItemView>, a: ContextAction) -> Seq<ItemView> {
    match a {
        ContextAction::ChangeColor(i) => s.update(
            i as int,
            ItemView { name: s[i as int].name, color: next_color(s[i as int].color) },
        ),
        ContextAction::Rename(i) => s.update(
            i as int,
            ItemView { name: renamed(s[i as int].name), color: s[i as int].color },
        ),
        ContextAction::Duplicate(i) => s.push(
            ItemView { name: copy_name(s[i as int].name), color: s[i as int].color },
        ),
        ContextAction::Delete(i) => s.remove(i as int),
    }
}

/// The list after a swap request, or `None` when the request names a
/// position outside `s`.
pub open spec fn after_swap(s: Seq<ItemView>, req: Option<(usize, usize)>) -> Option<
    Seq<ItemView>,
> {
    match req {
        None => Some(s),
        Some((from, to)) => if from < s.len() && to < s.len() {
            Some(swapped(s, from as int, to as int))
        } else {
            None
        },
    }
}

/// The list after an optional context action, or `None` when the action
/// names a position outside `s`.
pub open spec fn after_action(s: Seq<ItemView>, a: Option<ContextAction>) -> Option<
    Seq<ItemView>,
> {
    match a {
        None => Some(s),
        Some(a) => if action_index(a) < s.len() {
            Some(apply_action(s, a))
        } else {
            None
        },
    }
}

/// The commands gathered during one pass over the displayed items: at most
/// one swap and one context action, the last one seen of each.
#[derive(Clone, Copy, Debug)]
pub struct Pass {
    pub swap_request: Option<(usize, usize)>,
    pub context_action: Option<ContextAction>,
}

impl Pass {
    pub fn new() -> (p: Pass)
        ensures
            p.swap_request is None,
            p.context_action is None,
    {
        Pass { swap_request: None, context_action: None }
    }

    /// Records a drag released onto the item at `index`, carrying the
    /// position `payload` of the dragged item. Dropping an item onto itself
    /// asks for nothing.
    pub fn on_drop(&mut self, payload: Option<usize>, index: usize)
        ensures
            final(self).context_action == old(self).context_action,
            final(self).swap_request == match payload {
                Some(from) => if from != index {
                    Some((from, index))
                } else {
                    old(self).swap_request
                },
                None => old(self).swap_request,
            },
    {
        if let Some(from) = payload {
            if from != index {
                self.swap_request = Some((from, index));
            }
        }
    }

    /// Records the entry chosen from a context menu, if any.
    pub fn on_menu(&mut self, action: Option<ContextAction>)
        ensures
            final(self).swap_request == old(self).swap_request,
            final(self).context_action == match action {
                Some(a) => Some(a),
                None => old(self).context_action,
            },
    {
        if let Some(a) = action {
            self.context_action = Some(a);
        }
    }
}

impl DragDropDemo {
    /// Carries out one context-menu action. Fails, changing nothing, when it
    /// names a position outside the list.
    pub fn handle_context_action(&mut self, action: ContextAction) -> (r: Result<(), StoreError>)
        ensures
            r is Ok <==> action_index(action) < old(self)@.len(),
            r is Ok ==> final(self)@ == apply_action(old(self)@, action),
            r is Err ==> r == Err::<(), StoreError>(StoreError::IndexOutOfBounds) && final(self)@
                == old(self)@,
    {
        match action {
            ContextAction::ChangeColor(index) => self.change_color(index),
            ContextAction::Rename(index) => self.rename(index),
            ContextAction::Duplicate(index) => self.duplicate(index),
            ContextAction::Delete(index) => self.delete(index),
        }
    }

    /// Applies what one pass gathered: first the swap, then the context
    /// action. Stops at the first command that names a position outside the
    /// list, leaving the list as the commands before it made it.
    pub fn apply_pass(&mut self, pass: Pass) -> (r: Result<(), StoreError>)
        ensures
            r is Ok <==> (after_swap(old(self)@, pass.swap_request) is Some && after_action(
                after_swap(old(self)@, pass.swap_request)->0,
                pass.context_action,
            ) is Some),
            r is Ok ==> Some(final(self)@) == after_action(
                after_swap(old(self)@, pass.swap_request)->0,
                pass.context_action,
            ),
            r is Err ==> r == Err::<(), StoreError>(StoreError::IndexOutOfBounds),
            after_swap(old(self)@, pass.swap_request) is None ==> final(self)@ == old(self)@,
            (after_swap(old(self)@, pass.swap_request) is Some && after_action(
                after_swap(old(self)@, pass.swap_request)->0,
                pass.context_action,
            ) is None) ==> final(self)@ == after_swap(old(self)@, pass.swap_request)->0,
    {
        if let Some((from, to)) = pass.swap_request {
            let r = self.reorder(from, to);
            if r.is_err() {
                return r;
            }
        }
        match pass.context_action {
            Some(action) => self.handle_context_action(action),
            None => Ok(()),
        }
    }
}

} // verus!
