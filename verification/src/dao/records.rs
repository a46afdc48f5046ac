//! The records that the engine derives from other records: history entries
//! from running ones, and updated variables.

use vstd::prelude::*;
use crate::error::{AppError, ErrorCode};
use crate::manager::engine::bpmn::bpmn_node::copy_opt;
use crate::model::{
    ApfHiVarinst, ApfRuIdentitylink, ApfRuTask, ApfRuVariable, ApfRuVariableDto, NewApfHiIdentitylink,
    NewApfHiTaskinst, NewApfHiVarinst,
};

verus! {

/// The history record of the task `task` when it is created: the task's own
/// identifier and fields, revision 1, not suspended, started when the task was
/// created and not yet ended.
pub fn hi_taskinst_from_task(task: &ApfRuTask) -> (r: NewApfHiTaskinst)
    ensures
        r.id == task.id,
        r.rev == 1,
        r.suspension_state == 0,
        r.start_time == task.create_time,
        r.end_time is None,
        r.duration is None,
        r.execution_id == task.execution_id,
        r.proc_inst_id == task.proc_inst_id,
        r.proc_def_id == task.proc_def_id,
        r.element_id == task.element_id,
        r.element_name == task.element_name,
        r.element_type == task.element_type,
        r.business_key == task.business_key,
        r.description == task.description,
        r.start_user_id == task.start_user_id,
        r.form_key == task.form_key,
{
    NewApfHiTaskinst {
        id: task.id.clone(),
        rev: 1,
        suspension_state: 0,
        start_time: task.create_time,
        end_time: None,
        duration: None,
        execution_id: task.execution_id.clone(),
        proc_inst_id: task.proc_inst_id.clone(),
        proc_def_id: task.proc_def_id.clone(),
        element_id: copy_opt(&task.element_id),
        element_name: copy_opt(&task.element_name),
        element_type: copy_opt(&task.element_type),
        business_key: copy_opt(&task.business_key),
        description: copy_opt(&task.description),
        start_user_id: copy_opt(&task.start_user_id),
        form_key: copy_opt(&task.form_key),
    }
}

/// The history record of an identity link: the link's identifier and fields.
pub fn hi_identitylink_from_link(ident_link: &ApfRuIdentitylink) -> (r: NewApfHiIdentitylink)
    ensures
        r.id == ident_link.id,
        r.ident_type == ident_link.ident_type,
        r.group_id == ident_link.group_id,
        r.user_id == ident_link.user_id,
        r.task_id == ident_link.task_id,
        r.proc_inst_id == ident_link.proc_inst_id,
        r.proc_def_id == ident_link.proc_def_id,
{
    NewApfHiIdentitylink {
        id: ident_link.id.clone(),
        ident_type: ident_link.ident_type,
        group_id: copy_opt(&ident_link.group_id),
        user_id: copy_opt(&ident_link.user_id),
        task_id: copy_opt(&ident_link.task_id),
        proc_inst_id: copy_opt(&ident_link.proc_inst_id),
        proc_def_id: copy_opt(&ident_link.proc_def_id),
    }
}

/// The history record of a variable created at `create_time`: the variable's
/// identifier and fields, last updated when it was created.
pub fn hi_varinst_from_variable(variable: &ApfRuVariable, create_time: i64) -> (r: NewApfHiVarinst)
    ensures
        r.id == variable.id,
        r.var_type == variable.var_type,
        r.name == variable.name,
        r.value == variable.value,
        r.proc_inst_id == variable.proc_inst_id,
        r.execution_id == variable.execution_id,
        r.task_id == variable.task_id,
        r.create_time == create_time,
        r.last_updated_time == create_time,
{
    NewApfHiVarinst {
        id: variable.id.clone(),
        var_type: variable.var_type.clone(),
        name: variable.name.clone(),
        value: variable.value.clone(),
        proc_inst_id: variable.proc_inst_id.clone(),
        execution_id: copy_opt(&variable.execution_id),
        task_id: copy_opt(&variable.task_id),
        create_time,
        last_updated_time: create_time,
    }
}

/// The history record `h` after the variable `variable` changed at
/// `update_time`: type, value and name from the variable, the update time
/// recorded, everything else kept.
pub open spec fn updated_hi_varinst(h: ApfHiVarinst, variable: ApfRuVariable, update_time: i64) -> ApfHiVarinst {
    ApfHiVarinst {
        var_type: variable.var_type,
        value: variable.value,
        name: variable.name,
        last_updated_time: update_time,
        ..h
    }
}

/// The variable `v` after the values `dto` were written to it: name, value,
/// type, execution and task from `dto`, everything else kept.
pub open spec fn updated_variable(v: ApfRuVariable, dto: ApfRuVariableDto) -> ApfRuVariable {
    ApfRuVariable {
        name: dto.name,
        value: dto.value,
        var_type: dto.var_type,
        execution_id: dto.execution_id,
        task_id: dto.task_id,
        ..v
    }
}

/// The history record `hi_var` after the variable `variable` changed at
/// `update_time`: type, value and name from the variable, the update time
/// recorded, everything else kept.
pub fn hi_varinst_updated(hi_var: ApfHiVarinst, variable: &ApfRuVariable, update_time: i64) -> (r: ApfHiVarinst)
    ensures
        r == updated_hi_varinst(hi_var, *variable, update_time),
{
    let mut hi_var = hi_var;
    hi_var.var_type = variable.var_type.clone();
    hi_var.value = variable.value.clone();
    hi_var.name = variable.name.clone();
    hi_var.last_updated_time = update_time;
    hi_var
}

/// The variable `variable` after the values `dto` were written to it: name,
/// value, type, execution and task from `dto`, its identifier, revision and
/// process instance kept.
pub fn variable_updated(variable: ApfRuVariable, dto: &ApfRuVariableDto) -> (r: ApfRuVariable)
    ensures
        r == updated_variable(variable, *dto),
{
    let mut variable = variable;
    variable.name = dto.name.clone();
    variable.value = dto.value.clone();
    variable.var_type = dto.var_type.clone();
    variable.execution_id = copy_opt(&dto.execution_id);
    variable.task_id = copy_opt(&dto.task_id);
    variable
}

/// The values that completing the task `task` writes to its process
/// instance's variable `name`: the type and value given, the task's process
/// instance, execution and identifier.
pub fn task_variable_dto(task: &ApfRuTask, name: &str, var_type: String, value: String) -> (r: ApfRuVariableDto)
    ensures
        r.name@ == name@,
        r.var_type == var_type,
        r.value == value,
        r.proc_inst_id == task.proc_inst_id,
        r.execution_id == Some(task.execution_id),
        r.task_id == Some(task.id),
{
    ApfRuVariableDto {
        var_type,
        name: name.to_owned(),
        value,
        proc_inst_id: task.proc_inst_id.clone(),
        execution_id: Some(task.execution_id.clone()),
        task_id: Some(task.id.clone()),
    }
}

/// What writing a record comes to, given what looking it up returned.
#[derive(Debug)]
pub enum Upsert<T> {
    /// Write this updated record back.
    Update(T),
    /// Create a new record.
    Create,
    /// Do neither: the lookup failed for another reason than a missing record.
    Keep,
}

/// What writing the values `dto` to a process instance's variable of that name
/// comes to, given what looking the variable up returned: the variable
/// updated with `dto` where it was found; a new variable where it was
/// missing; nothing where the lookup failed otherwise.
pub fn variable_upsert(found: Result<ApfRuVariable, AppError>, dto: &ApfRuVariableDto) -> (r: Upsert<ApfRuVariable>)
    ensures
        match found {
            Ok(v) => r matches Upsert::Update(u) && u == updated_variable(v, *dto),
            Err(e) => if e.code == ErrorCode::NotFound {
                r is Create
            } else {
                r is Keep
            },
        },
{
    match found {
        Ok(v) => Upsert::Update(variable_updated(v, dto)),
        Err(e) => if e.code == ErrorCode::NotFound {
            Upsert::Create
        } else {
            Upsert::Keep
        },
    }
}

/// What recording the variable `variable`, changed at `update_time`, in the
/// history comes to, given what looking its history record up returned: the
/// record updated where it was found; a new record where it was missing;
/// nothing where the lookup failed otherwise.
pub fn hi_varinst_upsert(found: Result<ApfHiVarinst, AppError>, variable: &ApfRuVariable, update_time: i64) -> (r: Upsert<ApfHiVarinst>)
    ensures
        match found {
            Ok(h) => r matches Upsert::Update(u) && u == updated_hi_varinst(h, *variable, update_time),
            Err(e) => if e.code == ErrorCode::NotFound {
                r is Create
            } else {
                r is Keep
            },
        },
{
    match found {
        Ok(h) => Upsert::Update(hi_varinst_updated(h, variable, update_time)),
        Err(e) => if e.code == ErrorCode::NotFound {
            Upsert::Create
        } else {
            Upsert::Keep
        },
    }
}

/// Writing values to an existing variable keeps the variable's identity: its
/// identifier, revision and process instance, and it then holds the values
/// written.
pub proof fn lemma_update_keeps_identity(v: ApfRuVariable, dto: ApfRuVariableDto)
    ensures
        updated_variable(v, dto).id == v.id,
        updated_variable(v, dto).rev == v.rev,
        updated_variable(v, dto).proc_inst_id == v.proc_inst_id,
        updated_variable(v, dto).name == dto.name,
        updated_variable(v, dto).value == dto.value,
        updated_variable(v, dto).var_type == dto.var_type,
{
}

/// Writing the same values to a variable a second time changes nothing.
pub proof fn lemma_variable_update_idempotent(v: ApfRuVariable, dto: ApfRuVariableDto)
    ensures
        updated_variable(updated_variable(v, dto), dto) == updated_variable(v, dto),
{
}

/// Recording the same change of a variable in its history record a second
/// time changes nothing; the record keeps its identifier and creation time.
pub proof fn lemma_hi_varinst_update_idempotent(h: ApfHiVarinst, variable: ApfRuVariable, update_time: i64)
    ensures
        updated_hi_varinst(updated_hi_varinst(h, variable, update_time), variable, update_time)
            == updated_hi_varinst(h, variable, update_time),
        updated_hi_varinst(h, variable, update_time).id == h.id,
        updated_hi_varinst(h, variable, update_time).create_time == h.create_time,
{
}

} // verus!
