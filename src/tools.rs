//! Generated study tools: their templates, creation, listing with paging,
//! editing and deletion.
use vstd::prelude::*;
use crate::ai::AppConfig;
use crate::clock::{new_id, now_millis};
use crate::calendar::{day_of_text, parse_date};
use crate::model::{tasks_view, EngineError, Task};
use crate::store::{completed_ids, daily_view, latest_daily, Store};
use crate::text::{concat2, concat3, same_text};

verus! {

/// Tools listed per page when no limit is asked for.
pub const DEFAULT_PAGE_SIZE: usize = 20;

/// Presentation wishes for a generated tool.
#[derive(Debug)]
pub struct UiPreferences {
    pub theme: Option<String>,
    pub size: Option<String>,
}

/// What a tool is generated from.
#[derive(Debug)]
pub struct ToolGenerateRequest {
    pub user_id: u128,
    pub tool_type: String,
    pub context: String,
    pub requirements: String,
    pub ui_preferences: Option<UiPreferences>,
}

/// Version and provenance of a tool.
#[derive(Debug)]
pub struct ToolMetadata {
    pub version: String,
    pub created_at: i64,
    pub ai_model: String,
}

/// A generated study tool.
#[derive(Debug)]
pub struct Tool {
    pub tool_id: u128,
    pub user_id: u128,
    pub tool_type: String,
    pub name: String,
    pub description: String,
    pub component_code: String,
    pub metadata: ToolMetadata,
    pub usage_count: u32,
    pub last_used: Option<i64>,
}

/// A tool as a listing shows it.
#[derive(Debug)]
pub struct ToolListItem {
    pub tool_id: u128,
    pub name: String,
    pub tool_type: String,
    pub usage_count: u32,
    pub last_used: Option<i64>,
}

/// One page of a user's tools.
#[derive(Debug)]
pub struct ToolListResponse {
    pub tools: Vec<ToolListItem>,
    pub total: usize,
    pub limit: usize,
    pub offset: usize,
}

/// The outcome of editing a tool.
#[derive(Debug)]
pub struct ToolEditResponse {
    pub tool_id: u128,
    pub updated_component_code: String,
    pub changes_summary: String,
    pub version: String,
}

/// The outcome of deleting a tool.
#[derive(Debug)]
pub struct ToolDeleteResponse {
    pub success: bool,
    pub message: String,
}

/// A tool offered beside a day's tasks.
#[derive(Debug)]
pub struct SuggestedTool {
    pub tool_id: u128,
    pub tool_type: String,
    pub subject: String,
}

/// A stored day of a user: its tasks, those completed, and the user's tools.
#[derive(Debug)]
pub struct DailyPlanResponse {
    pub date: String,
    pub tasks: Vec<Task>,
    pub completed_tasks: Vec<u128>,
    pub suggested_tools: Vec<SuggestedTool>,
}

/// The tools of `user`, as offered beside a day's tasks.
pub open spec fn suggestions(tools: Seq<Tool>, user: u128) -> Seq<SuggestedTool> {
    tools.filter_map(
        |t: Tool|
            if t.user_id == user {
                Some(SuggestedTool { tool_id: t.tool_id, tool_type: t.tool_type, subject: t.name })
            } else {
                None
            },
    )
}

/// The component template that a tool starts from.
#[derive(Clone, Copy, Debug, PartialEq, Eq, Structural)]
pub enum ToolTemplate {
    Calculator,
    Timer,
    Flashcard,
    Custom,
}

/// The template for a tool type: the three known types have their own, any
/// other type the custom one.
pub open spec fn template_of(tool_type: Seq<char>) -> ToolTemplate {
    if tool_type == "calculator"@ {
        ToolTemplate::Calculator
    } else if tool_type == "timer"@ {
        ToolTemplate::Timer
    } else if tool_type == "flashcard"@ {
        ToolTemplate::Flashcard
    } else {
        ToolTemplate::Custom
    }
}

impl ToolTemplate {
    /// The template for a tool type.
    pub fn for_type(tool_type: &str) -> (r: ToolTemplate)
        ensures
            r == template_of(tool_type@),
    {
        if same_text(tool_type, "calculator") {
            ToolTemplate::Calculator
        } else if same_text(tool_type, "timer") {
            ToolTemplate::Timer
        } else if same_text(tool_type, "flashcard") {
            ToolTemplate::Flashcard
        } else {
            ToolTemplate::Custom
        }
    }

    /// The file name of the template.
    pub fn file_name(&self) -> (r: &'static str)
        ensures
            *self is Calculator ==> r@ == "calculator_template.tsx"@,
            *self is Timer ==> r@ == "timer_template.tsx"@,
            *self is Flashcard ==> r@ == "flashcard_template.tsx"@,
            *self is Custom ==> r@ == "custom_template.tsx"@,
    {
        match self {
            ToolTemplate::Calculator => "calculator_template.tsx",
            ToolTemplate::Timer => "timer_template.tsx",
            ToolTemplate::Flashcard => "flashcard_template.tsx",
            ToolTemplate::Custom => "custom_template.tsx",
        }
    }
}

/// `t` is the tool that `req` generates from `template_code`, with identifier
/// `id`, created at `now` by model `ai_model`.
pub open spec fn is_new_tool(
    t: Tool,
    req: ToolGenerateRequest,
    ai_model: Seq<char>,
    template_code: Seq<char>,
    id: u128,
    now: i64,
) -> bool {
    &&& t.tool_id == id
    &&& t.user_id == req.user_id
    &&& t.tool_type == req.tool_type
    &&& t.name@ == req.tool_type@ + " Tool"@
    &&& t.description == req.context
    &&& t.component_code@ == template_code
    &&& t.metadata.version@ == "1.0.0"@
    &&& t.metadata.created_at == now
    &&& t.metadata.ai_model@ == ai_model
    &&& t.usage_count == 0
    &&& t.last_used is None
}

/// A tool as a listing shows it.
pub open spec fn list_item(t: Tool) -> ToolListItem {
    ToolListItem {
        tool_id: t.tool_id,
        name: t.name,
        tool_type: t.tool_type,
        usage_count: t.usage_count,
        last_used: t.last_used,
    }
}

/// The listing entries of the tools of `user`, optionally of one type only.
pub open spec fn tools_of(tools: Seq<Tool>, user: u128, tool_type: Option<String>) -> Seq<ToolListItem> {
    tools.filter_map(
        |t: Tool|
            if t.user_id == user && (tool_type matches Some(ty) ==> t.tool_type@ == ty@) {
                Some(list_item(t))
            } else {
                None
            },
    )
}

/// The page of `items` that starts at `offset` and holds at most `limit`
/// entries; empty where `offset` is past the end.
pub open spec fn page<A>(items: Seq<A>, offset: int, limit: int) -> Seq<A> {
    if offset < items.len() {
        let end = if offset + limit < items.len() { offset + limit } else { items.len() as int };
        items.subrange(offset, end)
    } else {
        Seq::empty()
    }
}

/// A tool after an edit: its code with the instruction appended as a comment,
/// at version `1.1.0`.
pub open spec fn edited(t: Tool, instruction: Seq<char>) -> (Seq<char>, Seq<char>) {
    (t.component_code@ + "\n// "@ + instruction, "1.1.0"@)
}

impl Tool {
    /// A copy of the tool.
    pub fn copy(&self) -> (r: Tool)
        ensures
            r == *self,
    {
        Tool {
            tool_id: self.tool_id,
            user_id: self.user_id,
            tool_type: self.tool_type.clone(),
            name: self.name.clone(),
            description: self.description.clone(),
            component_code: self.component_code.clone(),
            metadata: ToolMetadata {
                version: self.metadata.version.clone(),
                created_at: self.metadata.created_at,
                ai_model: self.metadata.ai_model.clone(),
            },
            usage_count: self.usage_count,
            last_used: self.last_used,
        }
    }
}

/// A copy of a list item.
fn copy_item(x: &ToolListItem) -> (r: ToolListItem)
    ensures
        r == *x,
{
    ToolListItem {
        tool_id: x.tool_id,
        name: x.name.clone(),
        tool_type: x.tool_type.clone(),
        usage_count: x.usage_count,
        last_used: x.last_used,
    }
}

/// Tool generation.
pub struct ToolService;

impl ToolService {
    /// The tool that `request` generates from `template_code`, with identifier
    /// `tool_id`, created at `now` by model `ai_model`.
    pub fn build_tool(
        request: &ToolGenerateRequest,
        ai_model: &str,
        template_code: &str,
        tool_id: u128,
        now: i64,
    ) -> (r: Tool)
        ensures
            is_new_tool(r, *request, ai_model@, template_code@, tool_id, now),
    {
        Tool {
            tool_id,
            user_id: request.user_id,
            tool_type: request.tool_type.clone(),
            name: concat2(request.tool_type.as_str(), " Tool"),
            description: request.context.clone(),
            component_code: String::from_str(template_code),
            metadata: ToolMetadata {
                version: String::from_str("1.0.0"),
                created_at: now,
                ai_model: String::from_str(ai_model),
            },
            usage_count: 0,
            last_used: None,
        }
    }

    /// The tool that `request` generates from the code of its template (see
    /// `ToolTemplate::for_type`), with a fresh identifier, created now by the
    /// configured AI provider.
    pub fn generate_tool(request: &ToolGenerateRequest, config: &AppConfig, template_code: &str) -> (r: Tool)
        ensures
            is_new_tool(r, *request, config.ai_provider@, template_code@, r.tool_id, r.metadata.created_at),
    {
        let id = new_id();
        let now = now_millis();
        Self::build_tool(request, config.ai_provider.as_str(), template_code, id, now)
    }
}

impl Store {
    /// Stores a tool.
    pub fn insert_tool(&mut self, tool: Tool)
        ensures
            final(self).tools@ == old(self).tools@.push(tool),
            final(self).plans == old(self).plans,
            final(self).daily_plans == old(self).daily_plans,
            final(self).tasks == old(self).tasks,
            final(self).reminders == old(self).reminders,
            final(self).users == old(self).users,
    {
        self.tools.push(tool);
    }

    /// The position of the earliest stored tool with identifier `id`.
    fn find_tool(&self, id: u128) -> (r: Option<usize>)
        ensures
            match r {
                Some(i) => i < self.tools@.len() && self.tools@[i as int].tool_id == id
                    && forall|j: int| 0 <= j < i ==> self.tools@[j].tool_id != id,
                None => forall|j: int| 0 <= j < self.tools@.len() ==> self.tools@[j].tool_id != id,
            },
    {
        for i in 0..self.tools.len()
            invariant
                forall|j: int| 0 <= j < i ==> self.tools@[j].tool_id != id,
        {
            if self.tools[i].tool_id == id {
                return Some(i);
            }
        }
        None
    }

    /// The earliest stored tool with identifier `id`.
    pub fn get_tool(&self, id: u128) -> (r: Option<Tool>)
        ensures
            match r {
                Some(t) => exists|i: int|
                    0 <= i < self.tools@.len() && self.tools@[i] == t && t.tool_id == id
                        && forall|j: int| 0 <= j < i ==> self.tools@[j].tool_id != id,
                None => forall|j: int| 0 <= j < self.tools@.len() ==> self.tools@[j].tool_id != id,
            },
    {
        match self.find_tool(id) {
            Some(i) => Some(self.tools[i].copy()),
            None => None,
        }
    }

    /// One page of the tools of `user_id`, optionally of one type only: `limit`
    /// entries (20 where none is given) from `offset` (0 where none is given),
    /// with the number of matching tools.
    pub fn list_tools(
        &self,
        user_id: u128,
        tool_type: &Option<String>,
        limit: Option<usize>,
        offset: Option<usize>,
    ) -> (r: ToolListResponse)
        ensures
            r.total == tools_of(self.tools@, user_id, *tool_type).len(),
            r.limit == (match limit { Some(l) => l, None => DEFAULT_PAGE_SIZE }),
            r.offset == (match offset { Some(o) => o, None => 0 }),
            r.tools@ == page(tools_of(self.tools@, user_id, *tool_type), r.offset as int, r.limit as int),
    {
        let mut all: Vec<ToolListItem> = Vec::new();
        for i in 0..self.tools.len()
            invariant
                all@ == tools_of(self.tools@.subrange(0, i as int), user_id, *tool_type),
        {
            let t = &self.tools[i];
            let ghost prefix = self.tools@.subrange(0, i + 1);
            assert(prefix.drop_last() =~= self.tools@.subrange(0, i as int));
            let type_ok = match tool_type {
                Some(ty) => same_text(t.tool_type.as_str(), ty.as_str()),
                None => true,
            };
            if t.user_id == user_id && type_ok {
                all.push(ToolListItem {
                    tool_id: t.tool_id,
                    name: t.name.clone(),
                    tool_type: t.tool_type.clone(),
                    usage_count: t.usage_count,
                    last_used: t.last_used,
                });
            }
            assert(all@ =~= tools_of(prefix, user_id, *tool_type));
        }
        assert(self.tools@.subrange(0, self.tools@.len() as int) =~= self.tools@);
        let total = all.len();
        let limit = match limit {
            Some(l) => l,
            None => DEFAULT_PAGE_SIZE,
        };
        let offset = match offset {
            Some(o) => o,
            None => 0,
        };
        let mut tools: Vec<ToolListItem> = Vec::new();
        if offset < total {
            let end = if limit < total - offset { offset + limit } else { total };
            for j in offset..end
                invariant
                    offset <= end <= total,
                    total == all@.len(),
                    tools@ == all@.subrange(offset as int, j as int),
            {
                tools.push(copy_item(&all[j]));
                assert(tools@ =~= all@.subrange(offset as int, j + 1));
            }
        }
        ToolListResponse { tools, total, limit, offset }
    }

    /// Appends `instruction` as a comment to the code of every tool with
    /// identifier `tool_id` and sets their version to `1.1.0`; fails with
    /// `NotFound`, changing nothing, where no such tool is stored.
    pub fn edit_tool(&mut self, tool_id: u128, instruction: &str) -> (r: Result<ToolEditResponse, EngineError>)
        ensures
            (forall|j: int| 0 <= j < old(self).tools@.len() ==> old(self).tools@[j].tool_id != tool_id) ==> r
                == Err::<ToolEditResponse, EngineError>(EngineError::NotFound) && *final(self) == *old(self),
            r matches Ok(e) ==> {
                &&& e.tool_id == tool_id
                &&& e.version@ == "1.1.0"@
                &&& e.changes_summary@ == "Applied AI edits"@
                &&& exists|i: int|
                    0 <= i < old(self).tools@.len() && old(self).tools@[i].tool_id == tool_id
                        && e.updated_component_code@ == edited(old(self).tools@[i], instruction@).0
                &&& final(self).tools@.len() == old(self).tools@.len()
                &&& forall|j: int| 0 <= j < old(self).tools@.len() ==> {
                    let (o, n) = (old(self).tools@[j], #[trigger] final(self).tools@[j]);
                    if o.tool_id == tool_id {
                        &&& n.component_code@ == edited(o, instruction@).0
                        &&& n.metadata.version@ == edited(o, instruction@).1
                        &&& n.tool_id == o.tool_id && n.user_id == o.user_id && n.tool_type == o.tool_type
                        &&& n.name == o.name && n.description == o.description
                        &&& n.metadata.created_at == o.metadata.created_at
                        &&& n.metadata.ai_model == o.metadata.ai_model
                        &&& n.usage_count == o.usage_count && n.last_used == o.last_used
                    } else {
                        n == o
                    }
                }
            },
            (exists|j: int| 0 <= j < old(self).tools@.len() && old(self).tools@[j].tool_id == tool_id) ==> r is Ok,
            final(self).plans == old(self).plans,
            final(self).daily_plans == old(self).daily_plans,
            final(self).tasks == old(self).tasks,
            final(self).reminders == old(self).reminders,
            final(self).users == old(self).users,
    {
        let first = match self.find_tool(tool_id) {
            Some(i) => i,
            None => return Err(EngineError::NotFound),
        };
        let updated_code = concat3(self.tools[first].component_code.as_str(), "\n// ", instruction);
        let n = self.tools.len();
        for i in 0..n
            invariant
                n == old(self).tools@.len(),
                self.tools@.len() == n,
                self.plans == old(self).plans,
                self.daily_plans == old(self).daily_plans,
                self.tasks == old(self).tasks,
                self.reminders == old(self).reminders,
                self.users == old(self).users,
                forall|j: int| 0 <= j < n ==> {
                    let (o, t) = (old(self).tools@[j], #[trigger] self.tools@[j]);
                    if j < i && o.tool_id == tool_id {
                        &&& t.component_code@ == edited(o, instruction@).0
                        &&& t.metadata.version@ == edited(o, instruction@).1
                        &&& t.tool_id == o.tool_id && t.user_id == o.user_id && t.tool_type == o.tool_type
                        &&& t.name == o.name && t.description == o.description
                        &&& t.metadata.created_at == o.metadata.created_at
                        &&& t.metadata.ai_model == o.metadata.ai_model
                        &&& t.usage_count == o.usage_count && t.last_used == o.last_used
                    } else {
                        t == o
                    }
                },
        {
            if self.tools[i].tool_id == tool_id {
                let mut t = self.tools[i].copy();
                t.component_code = concat3(t.component_code.as_str(), "\n// ", instruction);
                t.metadata.version = String::from_str("1.1.0");
                self.tools[i] = t;
            }
        }
        Ok(ToolEditResponse {
            tool_id,
            updated_component_code: updated_code,
            changes_summary: String::from_str("Applied AI edits"),
            version: String::from_str("1.1.0"),
        })
    }

    /// The tools of `user_id`, as offered beside a day's tasks.
    pub fn suggested_tools(&self, user_id: u128) -> (r: Vec<SuggestedTool>)
        ensures
            r@ == suggestions(self.tools@, user_id),
    {
        let mut r: Vec<SuggestedTool> = Vec::new();
        for i in 0..self.tools.len()
            invariant
                r@ == suggestions(self.tools@.subrange(0, i as int), user_id),
        {
            let t = &self.tools[i];
            let ghost prefix = self.tools@.subrange(0, i + 1);
            assert(prefix.drop_last() =~= self.tools@.subrange(0, i as int));
            if t.user_id == user_id {
                r.push(SuggestedTool { tool_id: t.tool_id, tool_type: t.tool_type.clone(), subject: t.name.clone() });
            }
            assert(r@ =~= suggestions(prefix, user_id));
        }
        assert(self.tools@.subrange(0, self.tools@.len() as int) =~= self.tools@);
        r
    }

    /// The stored day of `user_id` dated `date`: the tasks of its most recently
    /// stored plan (none where there is no such day), the identifiers of its
    /// completed tasks, and the user's tools. Fails with `InvalidDate` exactly
    /// where `date` is not a `YYYY-MM-DD` date.
    pub fn daily_plan_response(&self, user_id: u128, date: &str) -> (r: Result<DailyPlanResponse, EngineError>)
        ensures
            day_of_text(date@) is None ==> r == Err::<DailyPlanResponse, EngineError>(EngineError::InvalidDate),
            day_of_text(date@) is Some ==> r is Ok,
            r matches Ok(x) ==> {
                &&& x.date@ == date@
                &&& tasks_view(x.tasks@) == (match latest_daily(daily_view(self.daily_plans@), user_id, date@) {
                    Some(b) => b.tasks,
                    None => Seq::empty(),
                })
                &&& x.completed_tasks@ == completed_ids(self.tasks@, user_id, date@)
                &&& x.suggested_tools@ == suggestions(self.tools@, user_id)
            },
    {
        if parse_date(date).is_none() {
            return Err(EngineError::InvalidDate);
        }
        let tasks = match self.get_daily_plan(user_id, date) {
            Some(d) => d.tasks,
            None => Vec::new(),
        };
        assert(tasks_view(Seq::<Task>::empty()) =~= Seq::empty());
        Ok(DailyPlanResponse {
            date: String::from_str(date),
            tasks,
            completed_tasks: self.get_completed_tasks(user_id, date),
            suggested_tools: self.suggested_tools(user_id),
        })
    }

    /// Deletes every tool with identifier `tool_id`; whether there was one.
    pub fn delete_tool(&mut self, tool_id: u128) -> (r: bool)
        ensures
            r == exists|j: int| 0 <= j < old(self).tools@.len() && old(self).tools@[j].tool_id == tool_id,
            final(self).tools@ == old(self).tools@.filter_map(
                |t: Tool| if t.tool_id == tool_id { None } else { Some(t) },
            ),
            final(self).plans == old(self).plans,
            final(self).daily_plans == old(self).daily_plans,
            final(self).tasks == old(self).tasks,
            final(self).reminders == old(self).reminders,
            final(self).users == old(self).users,
    {
        let ghost all = self.tools@;
        let mut kept: Vec<Tool> = Vec::new();
        let mut removed = false;
        for i in 0..self.tools.len()
            invariant
                all == self.tools@,
                removed == exists|j: int| 0 <= j < i && all[j].tool_id == tool_id,
                kept@ == all.subrange(0, i as int).filter_map(
                    |t: Tool| if t.tool_id == tool_id { None } else { Some(t) },
                ),
        {
            let ghost prefix = all.subrange(0, i + 1);
            assert(prefix.drop_last() =~= all.subrange(0, i as int));
            if self.tools[i].tool_id == tool_id {
                removed = true;
            } else {
                kept.push(self.tools[i].copy());
            }
            assert(kept@ =~= prefix.filter_map(|t: Tool| if t.tool_id == tool_id { None } else { Some(t) }));
        }
        assert(all.subrange(0, all.len() as int) =~= all);
        self.tools = kept;
        removed
    }
}

} // verus!
