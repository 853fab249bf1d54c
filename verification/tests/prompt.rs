//! Prompt adapter behavior: rendering, applicability, substitution.

use mcp_core::prompt::PromptAdapter;
use mcp_core::protocol::{
    MCPPrompt, MCPPromptArgument, MCPPromptContent, MCPPromptMessage, MCPPromptMessageContent,
    MCPPromptMessageContentBlock,
};

fn text_message(role: &str, text: &str) -> MCPPromptMessage {
    MCPPromptMessage {
        role: role.to_string(),
        content: MCPPromptMessageContent::Plain(text.to_string()),
    }
}

#[test]
fn system_prompt_joins_role_labeled_messages() {
    let content = MCPPromptContent {
        name: "review".to_string(),
        messages: vec![
            text_message("system", "Be brief."),
            text_message("user", "Review this."),
            text_message("assistant", "Done."),
            text_message("critic", "More."),
        ],
    };
    let rendered = PromptAdapter::to_system_prompt(&content);
    assert_eq!(
        rendered,
        "Be brief.\n\nUser: Review this.\n\nAssistant: Done.\n\ncritic: More.".to_string()
    );
}

#[test]
fn system_prompt_renders_placeholders_for_media() {
    let content = MCPPromptContent {
        name: "mixed".to_string(),
        messages: vec![MCPPromptMessage {
            role: "user".to_string(),
            content: MCPPromptMessageContent::Block(MCPPromptMessageContentBlock::Image {
                data: "ZZZ".to_string(),
                mime_type: "image/png".to_string(),
            }),
        }],
    };
    assert_eq!(
        PromptAdapter::to_system_prompt(&content),
        "User: [Image: image/png]".to_string()
    );
}

#[test]
fn empty_prompt_renders_empty() {
    let content = MCPPromptContent { name: "none".to_string(), messages: vec![] };
    assert_eq!(PromptAdapter::to_system_prompt(&content), String::new());
}

fn prompt_with_args(args: Vec<(&str, bool)>) -> MCPPrompt {
    MCPPrompt {
        name: "p".to_string(),
        title: None,
        description: None,
        arguments: Some(
            args.into_iter()
                .map(|(name, required)| MCPPromptArgument {
                    name: name.to_string(),
                    description: None,
                    required,
                })
                .collect(),
        ),
        icons: None,
    }
}

#[test]
fn applicability_requires_every_required_argument() {
    let prompt = prompt_with_args(vec![("path", true), ("style", false)]);
    let full = vec![("path".to_string(), "/tmp/x".to_string())];
    let empty: Vec<(String, String)> = vec![];

    assert!(PromptAdapter::is_applicable(&prompt, &full));
    assert!(!PromptAdapter::is_applicable(&prompt, &empty));

    // Optional arguments never block applicability.
    let optional_only = prompt_with_args(vec![("style", false)]);
    assert!(PromptAdapter::is_applicable(&optional_only, &empty));

    // A prompt without declared arguments is always applicable.
    let plain = MCPPrompt {
        name: "p".to_string(),
        title: None,
        description: None,
        arguments: None,
        icons: None,
    };
    assert!(PromptAdapter::is_applicable(&plain, &empty));
}

#[test]
fn substitution_applies_to_every_message() {
    let args = vec![("name".to_string(), "Ada".to_string())];
    let messages = vec![
        text_message("user", "Hello {{name}}!"),
        MCPPromptMessage {
            role: "assistant".to_string(),
            content: MCPPromptMessageContent::Block(MCPPromptMessageContentBlock::Text {
                text: "Welcome, {{name}}.".to_string(),
            }),
        },
        MCPPromptMessage {
            role: "user".to_string(),
            content: MCPPromptMessageContent::Block(MCPPromptMessageContentBlock::Audio {
                data: "{{name}}".to_string(),
                mime_type: "audio/wav".to_string(),
            }),
        },
    ];
    let out = PromptAdapter::substitute_arguments(messages, &args);
    assert_eq!(out.len(), 3);
    assert_eq!(out[0].content.text_or_placeholder(), "Hello Ada!".to_string());
    assert_eq!(out[1].content.text_or_placeholder(), "Welcome, Ada.".to_string());
    // Non-text data is never rewritten.
    match &out[2].content {
        MCPPromptMessageContent::Block(MCPPromptMessageContentBlock::Audio { data, .. }) => {
            assert_eq!(data, &"{{name}}".to_string());
        }
        other => panic!("variant changed: {:?}", other),
    }
}
