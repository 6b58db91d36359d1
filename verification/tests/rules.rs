use yomiage::application::rule_pipeline::RulePipeline;
use yomiage::application::rules::default_rules;

#[test]
fn url_is_replaced() {
    let pipeline = RulePipeline::new(default_rules());
    assert_eq!(
        pipeline.run("見て https://example.com/foo これ"),
        Some("見て URL省略 これ".to_owned())
    );
}

#[test]
fn code_block_is_replaced() {
    let pipeline = RulePipeline::new(default_rules());
    assert_eq!(
        pipeline.run("```rust\nfn main() {}\n```"),
        Some("こんなの読めないのだ".to_owned())
    );
}

#[test]
fn emoji_only_message_is_skipped() {
    let pipeline = RulePipeline::new(default_rules());
    assert_eq!(pipeline.run("😀😀😀"), None);
}

#[test]
fn semicolon_prefix_is_skipped() {
    let pipeline = RulePipeline::new(default_rules());
    assert_eq!(pipeline.run("; これは読まれない"), None);
    assert_eq!(pipeline.run("；全角もスキップ"), None);
}

#[test]
fn mention_is_removed() {
    let pipeline = RulePipeline::new(default_rules());
    assert_eq!(pipeline.run("やあ <@123456789>"), Some("やあ".to_owned()));
}
