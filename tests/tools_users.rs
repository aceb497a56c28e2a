use study_planner::ai::{AiService, AppConfig};
use study_planner::model::EngineError;
use study_planner::store::Store;
use study_planner::text::{concat3, digit_text, same_text};
use study_planner::tools::{ToolGenerateRequest, ToolService, ToolTemplate, UiPreferences};
use study_planner::users::UserProfileRequest;

fn config(provider: &str, key: Option<&str>, model: &str) -> AppConfig {
    AppConfig {
        host: "127.0.0.1".to_string(),
        port: 0,
        database_path: ":memory:".to_string(),
        data_dir: "data".to_string(),
        ai_provider: provider.to_string(),
        openrouter_api_key: key.map(|k| k.to_string()),
        openrouter_model: model.to_string(),
        openrouter_base_url: "https://openrouter.ai/api/v1".to_string(),
        openrouter_referer: None,
    }
}

fn tool_request(user: u128, tool_type: &str) -> ToolGenerateRequest {
    ToolGenerateRequest {
        user_id: user,
        tool_type: tool_type.to_string(),
        context: "Quadratic equations".to_string(),
        requirements: "Solve ax^2 + bx + c = 0".to_string(),
        ui_preferences: Some(UiPreferences { theme: Some("light".to_string()), size: Some("medium".to_string()) }),
    }
}

#[test]
fn generate_tool_returns_tool() {
    let req = tool_request(2, "calculator");
    let template = ToolTemplate::for_type(&req.tool_type);
    assert_eq!(template, ToolTemplate::Calculator);
    let tool = ToolService::generate_tool(&req, &config("local", None, "m"), "export default Calc;");
    assert_eq!(tool.tool_type, "calculator");
    assert_eq!(tool.name, "calculator Tool");
    assert_eq!(tool.description, "Quadratic equations");
    assert_eq!(tool.component_code, "export default Calc;");
    assert_eq!(tool.metadata.version, "1.0.0");
    assert_eq!(tool.metadata.ai_model, "local");
    assert_eq!(tool.usage_count, 0);
    let other = ToolService::generate_tool(&req, &config("local", None, "m"), "");
    assert_ne!(tool.tool_id, other.tool_id);
}

#[test]
fn templates_by_type() {
    assert_eq!(ToolTemplate::for_type("timer"), ToolTemplate::Timer);
    assert_eq!(ToolTemplate::for_type("flashcard"), ToolTemplate::Flashcard);
    assert_eq!(ToolTemplate::for_type("mindmap"), ToolTemplate::Custom);
    assert_eq!(ToolTemplate::Custom.file_name(), "custom_template.tsx");
}

#[test]
fn tool_paging() {
    let mut store = Store::new();
    for i in 0..5u128 {
        let kind = if i % 2 == 0 { "timer" } else { "flashcard" };
        store.insert_tool(ToolService::build_tool(&tool_request(3, kind), "local", "code", i, 0));
    }
    store.insert_tool(ToolService::build_tool(&tool_request(4, "timer"), "local", "code", 9, 0));
    let all = store.list_tools(3, &None, None, None);
    assert_eq!(all.total, 5);
    assert_eq!(all.limit, 20);
    assert_eq!(all.offset, 0);
    assert_eq!(all.tools.len(), 5);
    let page = store.list_tools(3, &None, Some(2), Some(1));
    let ids: Vec<u128> = page.tools.iter().map(|t| t.tool_id).collect();
    assert_eq!(ids, vec![1, 2]);
    assert_eq!(page.total, 5);
    let timers = store.list_tools(3, &Some("timer".to_string()), None, None);
    assert_eq!(timers.total, 3);
    let past = store.list_tools(3, &None, Some(2), Some(5));
    assert!(past.tools.is_empty());
    assert_eq!(past.total, 5);
    let big = store.list_tools(3, &None, Some(usize::MAX), Some(3));
    assert_eq!(big.tools.len(), 2);
}

#[test]
fn edit_get_and_delete_tool() {
    let mut store = Store::new();
    store.insert_tool(ToolService::build_tool(&tool_request(3, "timer"), "local", "let x = 1;", 11, 0));
    let edit = store.edit_tool(11, "add pause button").unwrap();
    assert_eq!(edit.updated_component_code, "let x = 1;\n// add pause button");
    assert_eq!(edit.version, "1.1.0");
    assert_eq!(edit.changes_summary, "Applied AI edits");
    let tool = store.get_tool(11).unwrap();
    assert_eq!(tool.component_code, "let x = 1;\n// add pause button");
    assert_eq!(tool.metadata.version, "1.1.0");
    assert_eq!(store.edit_tool(12, "x").unwrap_err(), EngineError::NotFound);
    assert!(store.delete_tool(11));
    assert!(!store.delete_tool(11));
    assert!(store.get_tool(11).is_none());
}

#[test]
fn suggested_tools_of_a_user() {
    let mut store = Store::new();
    store.insert_tool(ToolService::build_tool(&tool_request(3, "timer"), "local", "", 1, 0));
    store.insert_tool(ToolService::build_tool(&tool_request(4, "timer"), "local", "", 2, 0));
    let s = store.suggested_tools(3);
    assert_eq!(s.len(), 1);
    assert_eq!(s[0].tool_id, 1);
    assert_eq!(s[0].subject, "timer Tool");
}

#[test]
fn profiles_are_found_by_email() {
    let mut store = Store::new();
    let first = store.ensure_user(
        &UserProfileRequest { name: "Ada".to_string(), email: Some("ada@example.com".to_string()), preferences: None },
        100,
    );
    assert_eq!(first.user_id, 100);
    let again = store.ensure_user(
        &UserProfileRequest { name: "Ada L".to_string(), email: Some("ada@example.com".to_string()), preferences: Some("{}".to_string()) },
        200,
    );
    assert_eq!(again.user_id, 100);
    assert_eq!(store.users.len(), 1);
    assert_eq!(store.users[0].name, "Ada L");
    let anon = store.ensure_user(&UserProfileRequest { name: "Bob".to_string(), email: None, preferences: None }, 300);
    assert_eq!(anon.user_id, 300);
    assert!(store.has_user(300));
    assert!(!store.has_user(200));
}

#[test]
fn remote_model_only_with_key_and_model() {
    assert!(AiService::uses_remote(&config("openai", Some("SECRET-REDACTED"), "gpt")));
    assert!(!AiService::uses_remote(&config("openai", Some("   "), "gpt")));
    assert!(AiService::uses_remote(&config("openai", Some("  k  "), " gpt ")));
    assert!(!AiService::uses_remote(&config("openai", None, "gpt")));
    assert!(!AiService::uses_remote(&config("openai", Some("k"), " \t")));
    assert!(!AiService::uses_remote(&config("openrouter", Some("k"), "gpt")));
}

#[test]
fn local_ai_replies() {
    assert_eq!(AiService::local_reply("help"), "Based on your message: help");
    assert_eq!(AiService::empty_remote_reply(), "I can help you with your study plan.");
    let s = AiService::suggest();
    assert_eq!(s.suggestions, vec!["Consider a short break.".to_string(), "Review key concepts.".to_string()]);
    assert_eq!(s.priority, "low");
}

#[test]
fn error_codes() {
    assert_eq!(EngineError::NotFound.http_status(), 404);
    assert_eq!(EngineError::NotFound.code(), "NOT_FOUND");
    assert_eq!(EngineError::InvalidStatus.http_status(), 400);
    assert_eq!(EngineError::DateOutOfRange.code(), "VALIDATION_ERROR");
    assert!(!EngineError::NotFound.is_validation());
}

#[test]
fn text_helpers() {
    assert!(same_text("abc", "abc"));
    assert!(!same_text("abc", "abd"));
    assert_eq!(concat3("a", "b", "c"), "abc");
    assert_eq!(digit_text(7), "7");
}
