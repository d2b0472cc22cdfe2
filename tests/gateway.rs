use rich_prompt::completion::{build_request, take_content, Role, MAX_TOKENS, TOP_P_PERMILLE};
use rich_prompt::error::GatewayError;
use rich_prompt::handler::{conclude, respond, Context, RichPromptReq};
use rich_prompt::pool::{ClientPool, PoolError};
use rich_prompt::template::{mentions_style, Templates};

fn templates(plain: &str, styled: &str) -> Templates {
    Templates {
        system_template: plain.to_string(),
        system_with_style_template: styled.to_string(),
    }
}

fn context(styled: &str) -> Context<&'static str> {
    Context::new(templates("You are a helpful assistant.", styled), vec!["key-a"]).unwrap()
}

#[test]
fn render_without_style_is_plain_template() {
    let t = templates("Plain {not a slot} text", "Respond like a {style}.");
    assert_eq!(t.render(&None), Ok("Plain {not a slot} text".to_string()));
}

#[test]
fn render_with_style_fills_placeholder() {
    let t = templates("Plain", "Respond like a {style}.");
    assert_eq!(
        t.render(&Some("pirate".to_string())),
        Ok("Respond like a pirate.".to_string())
    );
}

#[test]
fn render_with_style_at_both_ends() {
    let t = templates("Plain", "{style}");
    assert_eq!(t.render(&Some("poet".to_string())), Ok("poet".to_string()));
}

#[test]
fn render_without_placeholder_fails() {
    let t = templates("Plain", "Respond plainly.");
    assert_eq!(t.render(&Some("pirate".to_string())), Err(GatewayError::Template));
    assert_eq!(t.render(&Some("pirate".to_string())), Err(GatewayError::Template));
}

#[test]
fn render_with_unclosed_placeholder_fails() {
    let t = templates("Plain", "Respond like a {style");
    assert_eq!(t.render(&Some("pirate".to_string())), Err(GatewayError::Template));
}

#[test]
fn render_with_unknown_key_fails() {
    let t = templates("Plain", "Respond like a {style} in {tone}.");
    assert_eq!(t.render(&Some("pirate".to_string())), Err(GatewayError::Template));
}

#[test]
fn render_with_format_spec() {
    let t = templates("Plain", "[{style:>6}]");
    assert_eq!(t.render(&Some("cat".to_string())), Ok("[   cat]".to_string()));
}

#[test]
fn mentions_style_finds_placeholders() {
    assert!(mentions_style("a {style} b"));
    assert!(mentions_style("{style:<4}"));
    assert!(!mentions_style("a {styles} b"));
    assert!(!mentions_style("{style"));
    assert!(!mentions_style(""));
}

#[test]
fn pool_of_no_clients_fails() {
    let clients: Vec<u32> = Vec::new();
    assert!(matches!(ClientPool::new(clients), Err(PoolError::Empty)));
}

#[test]
fn context_of_no_clients_fails() {
    let clients: Vec<u32> = Vec::new();
    let r = Context::new(templates("a", "{style}"), clients);
    assert!(matches!(r, Err(PoolError::Empty)));
}

#[test]
fn pool_keeps_clients_in_order() {
    let pool = ClientPool::new(vec![10u32, 20, 30]).unwrap();
    assert_eq!(pool.len(), 3);
    assert_eq!(*pool.client(0), 10);
    assert_eq!(*pool.client(2), 30);
}

#[test]
fn pool_of_one_always_selects_it() {
    let pool = ClientPool::new(vec!["only"]).unwrap();
    for _ in 0..100 {
        assert_eq!(pool.select(), 0);
    }
}

#[test]
fn pool_selection_is_near_uniform() {
    let pool = ClientPool::new(vec![0u8, 1, 2, 3]).unwrap();
    let mut counts = [0u32; 4];
    for _ in 0..8000 {
        let i = pool.select();
        assert!(i < 4);
        counts[i] += 1;
    }
    for c in counts {
        assert!(c > 1500 && c < 2500, "counts {:?}", counts);
    }
}

#[test]
fn request_has_fixed_shape() {
    let r = build_request("sys".to_string(), "hello".to_string());
    assert_eq!(r.model, "gpt-3.5-turbo");
    assert_eq!(r.max_tokens, 512);
    assert_eq!(MAX_TOKENS, 512);
    assert_eq!(r.top_p_permille, 0);
    assert_eq!(TOP_P_PERMILLE, 0);
    assert_eq!(r.messages.len(), 2);
    assert_eq!(r.messages[0].role, Role::System);
    assert_eq!(r.messages[0].content, "sys");
    assert_eq!(r.messages[1].role, Role::User);
    assert_eq!(r.messages[1].content, "hello");
}

#[test]
fn take_content_pops_last_choice() {
    assert_eq!(take_content(vec![]), Err(GatewayError::NoChoices));
    assert_eq!(take_content(vec![None]), Err(GatewayError::NoContent));
    assert_eq!(take_content(vec![Some("only".to_string())]), Ok("only".to_string()));
    assert_eq!(
        take_content(vec![Some("first".to_string()), Some("last".to_string())]),
        Ok("last".to_string())
    );
    assert_eq!(
        take_content(vec![Some("first".to_string()), None]),
        Err(GatewayError::NoContent)
    );
}

#[test]
fn error_messages() {
    assert_eq!(
        GatewayError::Template.message(),
        "failed to format system_with_style_template"
    );
    assert_eq!(GatewayError::NoChoices.message(), "choices is empty");
    assert_eq!(GatewayError::NoContent.message(), "content is empty");
    assert_eq!(GatewayError::Upstream("timed out".to_string()).message(), "timed out");
    assert_eq!(GatewayError::Request("bad field".to_string()).message(), "bad field");
}

#[test]
fn respond_maps_outcomes() {
    let ok = respond(Ok("answer".to_string()));
    assert_eq!((ok.status, ok.body.as_str()), (200, "answer"));
    let err = respond(Err(GatewayError::Template));
    assert_eq!(err.status, 500);
    assert_eq!(err.body, "failed to format system_with_style_template");
}

#[test]
fn empty_choices_reply_500() {
    let r = conclude(Ok(vec![]));
    assert_eq!(r.status, 500);
    assert_eq!(r.body, "choices is empty");
}

#[test]
fn missing_content_reply_500() {
    let r = conclude(Ok(vec![None]));
    assert_eq!(r.status, 500);
    assert_eq!(r.body, "content is empty");
}

#[test]
fn hello_gets_hi_there() {
    let ctx = context("Respond like a {style}.");
    let req = RichPromptReq { prompt: "Hello".to_string(), style: None };
    let call = ctx.prepare(&req).unwrap();
    assert_eq!(call.client, 0);
    assert_eq!(call.request.messages[0].content, "You are a helpful assistant.");
    assert_eq!(call.request.messages[1].content, "Hello");
    let r = conclude(Ok(vec![Some("Hi there".to_string())]));
    assert_eq!(r.status, 200);
    assert_eq!(r.body, "Hi there");
}

#[test]
fn pirate_style_reaches_system_message() {
    let ctx = context("Respond like a {style}.");
    let req = RichPromptReq {
        prompt: "Hello".to_string(),
        style: Some("pirate".to_string()),
    };
    let call = ctx.prepare(&req).unwrap();
    assert_eq!(call.request.messages[0].role, Role::System);
    assert_eq!(call.request.messages[0].content, "Respond like a pirate.");
    assert_eq!(call.request.messages[1].role, Role::User);
    assert_eq!(call.request.messages[1].content, "Hello");
}

#[test]
fn style_failure_is_reply_500() {
    let ctx = context("No placeholder here.");
    let req = RichPromptReq {
        prompt: "Hello".to_string(),
        style: Some("pirate".to_string()),
    };
    let err = ctx.prepare(&req).unwrap_err();
    let r = respond(Err(err));
    assert_eq!(r.status, 500);
    assert_eq!(r.body, "failed to format system_with_style_template");
}

#[test]
fn upstream_failure_then_recovery() {
    let ctx = context("Respond like a {style}.");
    let req = RichPromptReq { prompt: "Hello".to_string(), style: None };
    ctx.prepare(&req).unwrap();
    let failed = conclude(Err(GatewayError::Upstream("connection refused".to_string())));
    assert_eq!(failed.status, 500);
    assert!(failed.body.contains("connection refused"));
    ctx.prepare(&req).unwrap();
    let next = conclude(Ok(vec![Some("Hi there".to_string())]));
    assert_eq!(next.status, 200);
    assert_eq!(next.body, "Hi there");
}
