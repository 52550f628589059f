//! Undoable edits of a model.
//!
//! A [`ProjectModel`] is a model together with the log of the edits that were made to
//! it. The log is a `Record` of the `undo` crate: a list of actions and a cursor. The
//! actions before the cursor are applied, those after it are undone and can be redone
//! until a new action takes their place. What the log does is stated here over a
//! mathematical picture of it, [`ProjectView`], and the laws of undo and redo are proved
//! of that picture.

use crate::model::{clone_pairs, BevyModel, Component, ComponentView, ModelView};
use crate::templates::{create_default_template_v2, editor_template};
use undo::{Action, Record};
use vstd::prelude::*;

verus! {

/// An edit of a model.
#[derive(Debug)]
pub enum BevyModelAction {
    /// A component, given by its name and its fields.
    Component(String, Vec<(String, String)>),
}

pub enum ActionView {
    Component(Seq<char>, Seq<(Seq<char>, Seq<char>)>),
}

impl View for BevyModelAction {
    type V = ActionView;

    open spec fn view(&self) -> ActionView {
        match self {
            BevyModelAction::Component(name, content) => ActionView::Component(
                name@,
                content.deep_view(),
            ),
        }
    }
}

impl Clone for BevyModelAction {
    fn clone(&self) -> (copy: BevyModelAction)
        ensures
            copy@ == self@,
    {
        match self {
            BevyModelAction::Component(name, content) => BevyModelAction::Component(
                name.clone(),
                clone_pairs(content),
            ),
        }
    }
}

/// The action that adds what it holds to a model, and takes it away again when undone.
#[derive(Debug)]
pub struct Add(pub BevyModelAction);

impl View for Add {
    type V = ActionView;

    open spec fn view(&self) -> ActionView {
        self.0@
    }
}

impl Clone for Add {
    fn clone(&self) -> (copy: Add)
        ensures
            copy@ == self@,
    {
        Add(self.0.clone())
    }
}

/// The model after the action: a component comes last in the list of components.
pub open spec fn applied(action: ActionView, model: ModelView) -> ModelView {
    match action {
        ActionView::Component(name, content) => ModelView {
            components: model.components.push(ComponentView { name, content }),
            ..model
        },
    }
}

/// The model after the action was taken back: the last component is gone. A model
/// without components stays as it is.
pub open spec fn undone(action: ActionView, model: ModelView) -> ModelView {
    match action {
        ActionView::Component(_, _) => ModelView {
            components: if model.components.len() > 0 {
                model.components.drop_last()
            } else {
                model.components
            },
            ..model
        },
    }
}

/// What applying the action to the model returns. No action that there is can fail.
pub open spec fn apply_result(action: ActionView, model: ModelView) -> Result<(), &'static str> {
    Ok(())
}

/// What taking the action back from the model returns. No action that there is can fail.
pub open spec fn undo_result(action: ActionView, model: ModelView) -> Result<(), &'static str> {
    Ok(())
}

/// To take an action back right after it was applied gives the model as it was.
pub proof fn undo_reverts_apply(action: ActionView, model: ModelView)
    ensures
        undone(action, applied(action, model)) == model,
{
    assert(applied(action, model).components.drop_last() =~= model.components);
}

impl Action for Add {
    type Target = BevyModel;

    type Output = ();

    type Error = &'static str;

    fn apply(&mut self, target: &mut BevyModel) -> (result: Result<(), &'static str>)
        ensures
            result == apply_result(old(self)@, old(target)@),
            final(self)@ == old(self)@,
            result is Ok ==> final(target)@ == applied(old(self)@, old(target)@),
            result is Err ==> final(target)@ == old(target)@,
    {
        match &self.0 {
            BevyModelAction::Component(name, content) => {
                let component = Component { name: name.clone(), content: clone_pairs(content) };
                target.components.push(component);
                assert(target.components.deep_view() =~= old(target).components.deep_view().push(
                    component@,
                ));
            },
        }
        Ok(())
    }

    fn undo(&mut self, target: &mut BevyModel) -> (result: Result<(), &'static str>)
        ensures
            result == undo_result(old(self)@, old(target)@),
            final(self)@ == old(self)@,
            result is Ok ==> final(target)@ == undone(old(self)@, old(target)@),
            result is Err ==> final(target)@ == old(target)@,
    {
        match &self.0 {
            BevyModelAction::Component(_, _) => {
                let _ = target.components.pop();
                proof {
                    if old(target).components@.len() > 0 {
                        assert(target.components.deep_view() =~= old(
                            target,
                        ).components.deep_view().drop_last());
                    } else {
                        assert(target.components.deep_view() =~= old(target).components.deep_view());
                    }
                }
            },
        }
        Ok(())
    }
}

/// The log of actions: a `Record` of the `undo` crate. Verus does not take the type of
/// the record, whose second parameter is a boxed closure, so the record is hidden from
/// it in this struct and spoken of through [`log_entries`] and [`log_cursor`].
#[verifier::external_body]
pub struct CommandLog {
    record: Record<Add>,
}

/// The actions that the record holds, the oldest first.
pub uninterp spec fn log_entries(log: CommandLog) -> Seq<ActionView>;

/// The position of the record (`Record::current`): how many of its actions, counted
/// from the oldest, are applied.
pub uninterp spec fn log_cursor(log: CommandLog) -> nat;

/// `undo::Record::new`: a record that holds no action.
#[verifier::external_body]
pub(crate) fn log_new() -> (log: CommandLog)
    ensures
        log_entries(log) == Seq::<ActionView>::empty(),
        log_cursor(log) == 0,
{
    CommandLog { record: Record::new() }
}

/// `undo::Record::can_undo`: whether an action is applied.
#[verifier::external_body]
pub(crate) fn log_can_undo(log: &CommandLog) -> (can: bool)
    ensures
        can == (log_cursor(*log) > 0),
{
    log.record.can_undo()
}

/// `undo::Record::can_redo`: whether an action is undone.
#[verifier::external_body]
pub(crate) fn log_can_redo(log: &CommandLog) -> (can: bool)
    ensures
        can == (log_cursor(*log) < log_entries(*log).len()),
{
    log.record.can_redo()
}

/// `undo::Record::apply` runs `Add::apply` on the model, once, and returns what that
/// returned; the model is as the contract of `Add::apply` above leaves it. Where that
/// failed, the record is unchanged. Else the record drops the actions behind its position,
/// puts the new one there and moves past it. (`Add` merges no actions, and no record of
/// actions this size reaches the limit of `usize::MAX` entries.)
#[verifier::external_body]
pub(crate) fn log_apply(log: &mut CommandLog, model: &mut BevyModel, action: Add) -> (result:
    Result<(), &'static str>)
    ensures
        result == apply_result(action@, old(model)@),
        log_cursor(*final(log)) <= log_entries(*final(log)).len(),
        result is Ok ==> {
            &&& final(model)@ == applied(action@, old(model)@)
            &&& log_entries(*final(log)) == log_entries(*old(log)).take(
                log_cursor(*old(log)) as int,
            ).push(action@)
            &&& log_cursor(*final(log)) == log_cursor(*old(log)) + 1
        },
        result is Err ==> {
            &&& final(model)@ == old(model)@
            &&& log_entries(*final(log)) == log_entries(*old(log))
            &&& log_cursor(*final(log)) == log_cursor(*old(log))
        },
{
    log.record.apply(model, action)
}

/// `undo::Record::undo`: with no action applied it returns `None` and changes nothing.
/// Else it runs `Add::undo` of the last applied action on the model, once, and returns
/// what that returned; the model is as the contract of `Add::undo` above leaves it. Where
/// that did not fail, the position moves back by one.
#[verifier::external_body]
pub(crate) fn log_undo(log: &mut CommandLog, model: &mut BevyModel) -> (result: Option<
    Result<(), &'static str>,
>)
    ensures
        log_entries(*final(log)) == log_entries(*old(log)),
        log_cursor(*final(log)) <= log_entries(*final(log)).len(),
        log_cursor(*old(log)) == 0 ==> {
            &&& result is None
            &&& log_cursor(*final(log)) == 0
            &&& *final(model) == *old(model)
        },
        log_cursor(*old(log)) > 0 ==> {
            let action = log_entries(*old(log))[log_cursor(*old(log)) - 1];
            &&& result == Some(undo_result(action, old(model)@))
            &&& result->0 is Ok ==> {
                &&& final(model)@ == undone(action, old(model)@)
                &&& log_cursor(*final(log)) == log_cursor(*old(log)) - 1
            }
            &&& result->0 is Err ==> {
                &&& final(model)@ == old(model)@
                &&& log_cursor(*final(log)) == log_cursor(*old(log))
            }
        },
{
    log.record.undo(model)
}

/// `undo::Record::redo`: with no action undone it returns `None` and changes nothing.
/// Else it runs `Add::apply` of the first undone action on the model, once, and returns
/// what that returned; the model is as the contract of `Add::apply` above leaves it.
/// Where that did not fail, the position moves forward by one.
#[verifier::external_body]
pub(crate) fn log_redo(log: &mut CommandLog, model: &mut BevyModel) -> (result: Option<
    Result<(), &'static str>,
>)
    ensures
        log_entries(*final(log)) == log_entries(*old(log)),
        log_cursor(*final(log)) <= log_entries(*final(log)).len(),
        log_cursor(*old(log)) >= log_entries(*old(log)).len() ==> {
            &&& result is None
            &&& log_cursor(*final(log)) == log_cursor(*old(log))
            &&& *final(model) == *old(model)
        },
        log_cursor(*old(log)) < log_entries(*old(log)).len() ==> {
            let action = log_entries(*old(log))[log_cursor(*old(log)) as int];
            &&& result == Some(apply_result(action, old(model)@))
            &&& result->0 is Ok ==> {
                &&& final(model)@ == applied(action, old(model)@)
                &&& log_cursor(*final(log)) == log_cursor(*old(log)) + 1
            }
            &&& result->0 is Err ==> {
                &&& final(model)@ == old(model)@
                &&& log_cursor(*final(log)) == log_cursor(*old(log))
            }
        },
{
    log.record.redo(model)
}

/// A model and the log of its edits, as mathematical data.
pub struct ProjectView {
    pub model: ModelView,
    /// The actions of the log, the oldest first.
    pub log: Seq<ActionView>,
    /// How many actions of the log are applied.
    pub cursor: nat,
}

impl ProjectView {
    /// A model that nothing was done to yet.
    pub open spec fn fresh(model: ModelView) -> ProjectView {
        ProjectView { model, log: Seq::empty(), cursor: 0 }
    }

    pub open spec fn well_formed(self) -> bool {
        self.cursor <= self.log.len()
    }

    pub open spec fn can_undo(self) -> bool {
        self.cursor > 0
    }

    pub open spec fn can_redo(self) -> bool {
        self.cursor < self.log.len()
    }

    /// A new action is applied to the model and takes the place of all undone actions.
    pub open spec fn apply(self, action: ActionView) -> ProjectView {
        ProjectView {
            model: applied(action, self.model),
            log: self.log.take(self.cursor as int).push(action),
            cursor: self.cursor + 1,
        }
    }

    /// The last applied action is taken back. With none applied nothing changes.
    pub open spec fn undo(self) -> ProjectView {
        if self.can_undo() {
            ProjectView {
                model: undone(self.log[self.cursor - 1], self.model),
                cursor: (self.cursor - 1) as nat,
                ..self
            }
        } else {
            self
        }
    }

    /// The first undone action is applied again. With none undone nothing changes.
    pub open spec fn redo(self) -> ProjectView {
        if self.can_redo() {
            ProjectView {
                model: applied(self.log[self.cursor as int], self.model),
                cursor: self.cursor + 1,
                ..self
            }
        } else {
            self
        }
    }

    /// The actions applied one after the other.
    pub open spec fn apply_all(self, actions: Seq<ActionView>) -> ProjectView
        decreases actions.len(),
    {
        if actions.len() == 0 {
            self
        } else {
            self.apply_all(actions.drop_last()).apply(actions.last())
        }
    }

    /// Undo, so many times.
    pub open spec fn undo_times(self, times: nat) -> ProjectView
        decreases times,
    {
        if times == 0 {
            self
        } else {
            self.undo().undo_times((times - 1) as nat)
        }
    }

    /// Redo, so many times.
    pub open spec fn redo_times(self, times: nat) -> ProjectView
        decreases times,
    {
        if times == 0 {
            self
        } else {
            self.redo().redo_times((times - 1) as nat)
        }
    }
}

/// The model after the actions, applied one after the other.
pub open spec fn applied_all(actions: Seq<ActionView>, model: ModelView) -> ModelView
    decreases actions.len(),
{
    if actions.len() == 0 {
        model
    } else {
        applied(actions.last(), applied_all(actions.drop_last(), model))
    }
}

/// A model with the log of the edits that were made to it.
pub struct ProjectModel {
    model: BevyModel,
    history: CommandLog,
}

impl View for ProjectModel {
    type V = ProjectView;

    closed spec fn view(&self) -> ProjectView {
        ProjectView {
            model: self.model@,
            log: log_entries(self.history),
            cursor: log_cursor(self.history),
        }
    }
}

impl Default for ProjectModel {
    /// The template of the editor, with an empty log.
    fn default() -> (project: ProjectModel)
        ensures
            project@ == ProjectView::fresh(editor_template()),
    {
        ProjectModel::new(create_default_template_v2())
    }
}

impl ProjectModel {
    /// The model with an empty log.
    pub fn new(model: BevyModel) -> (project: ProjectModel)
        ensures
            project@ == ProjectView::fresh(model@),
    {
        ProjectModel { model, history: log_new() }
    }

    /// The model as it is now.
    pub fn model(&self) -> (model: &BevyModel)
        ensures
            model@ == self@.model,
    {
        &self.model
    }

    /// Whether an action is applied, so that `undo` has something to take back.
    pub fn can_undo(&self) -> (can: bool)
        ensures
            can == self@.can_undo(),
    {
        log_can_undo(&self.history)
    }

    /// Whether an action is undone, so that `redo` has something to apply again.
    pub fn can_redo(&self) -> (can: bool)
        ensures
            can == self@.can_redo(),
    {
        log_can_redo(&self.history)
    }

    /// Applies the action to the model and puts it into the log, in place of all undone
    /// actions.
    pub fn apply(&mut self, add: Add) -> (result: Result<(), &'static str>)
        ensures
            result is Ok,
            final(self)@ == old(self)@.apply(add@),
            final(self)@.well_formed(),
    {
        log_apply(&mut self.history, &mut self.model, add)
    }

    /// Takes the last applied action back. Returns `None`, and changes nothing, where no
    /// action is applied.
    pub fn undo(&mut self) -> (result: Option<Result<(), &'static str>>)
        ensures
            final(self)@ == old(self)@.undo(),
            final(self)@.well_formed(),
            old(self)@.can_undo() ==> result == Some(Ok::<(), &'static str>(())),
            !old(self)@.can_undo() ==> result is None,
    {
        log_undo(&mut self.history, &mut self.model)
    }

    /// Applies the first undone action again. Returns `None`, and changes nothing, where
    /// no action is undone.
    pub fn redo(&mut self) -> (result: Option<Result<(), &'static str>>)
        ensures
            final(self)@ == old(self)@.redo(),
            final(self)@.well_formed(),
            old(self)@.can_redo() ==> result == Some(Ok::<(), &'static str>(())),
            !old(self)@.can_redo() ==> result is None,
    {
        log_redo(&mut self.history, &mut self.model)
    }
}

/// After at least one new action nothing is left to redo, the log is what was applied
/// before with the new actions behind it, and the model has taken all of them.
pub proof fn apply_all_extends_the_log(start: ProjectView, actions: Seq<ActionView>)
    requires
        start.well_formed(),
        actions.len() > 0,
    ensures
        start.apply_all(actions).model == applied_all(actions, start.model),
        start.apply_all(actions).log == start.log.take(start.cursor as int) + actions,
        start.apply_all(actions).cursor == start.cursor + actions.len(),
        !start.apply_all(actions).can_redo(),
    decreases actions.len(),
{
    let front = actions.drop_last();
    if front.len() == 0 {
        assert(start.apply_all(front) == start);
        assert(applied_all(front, start.model) == start.model);
        assert(start.log.take(start.cursor as int).push(actions.last()) =~= start.log.take(
            start.cursor as int,
        ) + actions);
    } else {
        apply_all_extends_the_log(start, front);
        let before = start.apply_all(front);
        assert(before.log.take(before.cursor as int) =~= before.log);
        assert(before.log.push(actions.last()) =~= start.log.take(start.cursor as int) + actions);
    }
}

/// Undoing as many times as there are applied actions at the end of the applied part of
/// the log walks the model back through them: the log stays, the position moves back,
/// and the model is what it was before those actions.
proof fn undo_walks_back(state: ProjectView, actions: Seq<ActionView>, model: ModelView)
    requires
        state.well_formed(),
        actions.len() <= state.cursor,
        state.log.subrange(state.cursor - actions.len(), state.cursor as int) == actions,
        state.model == applied_all(actions, model),
    ensures
        state.undo_times(actions.len()) == (ProjectView {
            model,
            log: state.log,
            cursor: (state.cursor - actions.len()) as nat,
        }),
    decreases actions.len(),
{
    if actions.len() > 0 {
        let front = actions.drop_last();
        let next = state.undo();
        assert(state.log[state.cursor - 1] == actions.last());
        undo_reverts_apply(actions.last(), applied_all(front, model));
        assert(next.model == applied_all(front, model));
        assert(next.log.subrange(next.cursor - front.len(), next.cursor as int) =~= front);
        undo_walks_back(next, front, model);
    }
}

/// Redo, one time more, is one more redo at the end.
proof fn redo_times_by_last(state: ProjectView, times: nat)
    ensures
        state.redo_times(times + 1) == state.redo_times(times).redo(),
    decreases times,
{
    if times > 0 {
        redo_times_by_last(state.redo(), (times - 1) as nat);
    } else {
        assert(state.redo().redo_times(0) == state.redo());
    }
}

/// Redoing as many times as there are actions right behind the position applies them
/// one after the other: the log stays, the position moves forward.
proof fn redo_walks_forward(state: ProjectView, actions: Seq<ActionView>)
    requires
        state.cursor + actions.len() <= state.log.len(),
        state.log.subrange(state.cursor as int, (state.cursor + actions.len()) as int) == actions,
    ensures
        state.redo_times(actions.len()) == (ProjectView {
            model: applied_all(actions, state.model),
            log: state.log,
            cursor: state.cursor + actions.len(),
        }),
    decreases actions.len(),
{
    if actions.len() > 0 {
        let front = actions.drop_last();
        assert(state.log.subrange(state.cursor as int, (state.cursor + front.len()) as int) =~= front);
        redo_walks_forward(state, front);
        redo_times_by_last(state, front.len());
        assert(state.log[(state.cursor + front.len()) as int] == actions.last());
    }
}

/// After any number of new actions, as many undos give the model as it was before them,
/// and as many redos after that give back the model, the log and the position as they
/// were after the actions: every component is there again, in the order in which the
/// actions added them.
pub proof fn undo_all_then_redo_all(start: ProjectView, actions: Seq<ActionView>)
    requires
        start.well_formed(),
    ensures
        start.apply_all(actions).undo_times(actions.len()).model == start.model,
        start.apply_all(actions).undo_times(actions.len()).model.components
            == start.model.components,
        start.apply_all(actions).undo_times(actions.len()).redo_times(actions.len())
            == start.apply_all(actions),
{
    if actions.len() > 0 {
        apply_all_extends_the_log(start, actions);
        let after = start.apply_all(actions);
        assert(after.log.subrange(after.cursor - actions.len(), after.cursor as int) =~= actions);
        undo_walks_back(after, actions, start.model);
        let back = after.undo_times(actions.len());
        assert(back.log.subrange(back.cursor as int, (back.cursor + actions.len()) as int) =~= actions);
        redo_walks_forward(back, actions);
    }
}

/// A new action after an undo takes the place of the undone one: after the actions `a`
/// and `b`, an undo and the action `c`, the log ends with `a` and `c`, nothing can be
/// redone, and a redo changes nothing.
pub proof fn new_action_discards_undone(
    start: ProjectView,
    a: ActionView,
    b: ActionView,
    c: ActionView,
)
    requires
        start.well_formed(),
    ensures
        ({
            let end = start.apply(a).apply(b).undo().apply(c);
            &&& !end.can_redo()
            &&& end.redo() == end
            &&& end.log == start.log.take(start.cursor as int).push(a).push(c)
            &&& end.model == applied(c, applied(a, start.model))
        }),
{
    let first = start.apply(a);
    let second = first.apply(b);
    let third = second.undo();
    let end = third.apply(c);
    assert(first.log.take(first.cursor as int) =~= first.log);
    undo_reverts_apply(b, first.model);
    assert(second.log[second.cursor - 1] == b);
    assert(third.log.take(third.cursor as int) =~= first.log);
}

} // verus!
