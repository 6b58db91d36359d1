use yomiage::application::rule_pipeline::RulePipeline;
use yomiage::application::rules::{
    default_rules, CodeBlockRule, CustomEmojiRule, MentionRule, SemicolonPrefixRule, UnicodeEmojiRule,
    UrlRule,
};
use yomiage::domain::text_rule::{RuleOutcome, TextRule};

fn continued(outcome: RuleOutcome) -> Option<String> {
    match outcome {
        RuleOutcome::Continue(s) => Some(s),
        RuleOutcome::Skip => None,
    }
}

#[test]
fn http_and_https_urls_are_replaced() {
    assert_eq!(continued(UrlRule.apply("a http://x.jp/b?c=1 b")), Some("a URL省略 b".to_owned()));
    assert_eq!(continued(UrlRule.apply("https://x")), Some("URL省略".to_owned()));
    assert_eq!(
        continued(UrlRule.apply("https://a.b/c https://d.e")),
        Some("URL省略 URL省略".to_owned())
    );
}

#[test]
fn url_without_body_is_kept() {
    assert_eq!(continued(UrlRule.apply("https:// x")), Some("https:// x".to_owned()));
    assert_eq!(continued(UrlRule.apply("ftp://x.jp")), Some("ftp://x.jp".to_owned()));
}

#[test]
fn url_runs_through_word_characters() {
    // `\w` is Unicode-aware: Japanese characters continue the URL.
    assert_eq!(continued(UrlRule.apply("https://x.jpこれ ok")), Some("URL省略 ok".to_owned()));
}

#[test]
fn code_block_is_shortest() {
    assert_eq!(
        continued(CodeBlockRule.apply("a```x```b```y```c")),
        Some("aこんなの読めないのだbこんなの読めないのだc".to_owned())
    );
    assert_eq!(continued(CodeBlockRule.apply("````")), Some("````".to_owned()));
    assert_eq!(continued(CodeBlockRule.apply("``````")), Some("こんなの読めないのだ".to_owned()));
}

#[test]
fn unclosed_code_block_is_kept() {
    assert_eq!(continued(CodeBlockRule.apply("```abc")), Some("```abc".to_owned()));
}

#[test]
fn custom_emoji_are_removed() {
    assert_eq!(continued(CustomEmojiRule.apply("a<:smile:123>b")), Some("ab".to_owned()));
    assert_eq!(continued(CustomEmojiRule.apply("a<a:dance:45>b")), Some("ab".to_owned()));
    assert_eq!(continued(CustomEmojiRule.apply("<:x:>")), Some("<:x:>".to_owned()));
    assert_eq!(continued(CustomEmojiRule.apply("<b:x:1>")), Some("<b:x:1>".to_owned()));
}

#[test]
fn mentions_of_every_kind_are_removed() {
    assert_eq!(continued(MentionRule.apply("<@1><@!2><@&3><#4>x")), Some("x".to_owned()));
    assert_eq!(continued(MentionRule.apply("<@x>")), Some("<@x>".to_owned()));
    assert_eq!(continued(MentionRule.apply("<@!>")), Some("<@!>".to_owned()));
}

#[test]
fn mention_digits_are_unicode_digits() {
    // `\d` is Unicode Decimal_Number: Arabic-Indic digits count.
    assert_eq!(continued(MentionRule.apply("a<@١٢٣>b")), Some("ab".to_owned()));
}

#[test]
fn unicode_emoji_are_removed() {
    assert_eq!(continued(UnicodeEmojiRule.apply("a😀b☀c")), Some("abc".to_owned()));
    assert_eq!(continued(UnicodeEmojiRule.apply("👍\u{FE0F}")), Some("".to_owned()));
}

#[test]
fn semicolon_rule_only_looks_at_the_first_character() {
    assert!(continued(SemicolonPrefixRule.apply(";x")).is_none());
    assert_eq!(continued(SemicolonPrefixRule.apply(" ;x")), Some(" ;x".to_owned()));
    assert_eq!(continued(SemicolonPrefixRule.apply("")), Some("".to_owned()));
}

#[test]
fn rule_names() {
    assert_eq!(SemicolonPrefixRule.name(), "semicolon_prefix");
    assert_eq!(UrlRule.name(), "url");
    assert_eq!(CodeBlockRule.name(), "code_block");
    assert_eq!(CustomEmojiRule.name(), "custom_emoji");
    assert_eq!(MentionRule.name(), "mention");
    assert_eq!(UnicodeEmojiRule.name(), "unicode_emoji");
}

#[test]
fn pipeline_trims_unicode_white_space() {
    let pipeline = RulePipeline::new(default_rules());
    assert_eq!(pipeline.run("\u{3000} こんにちは \t\n"), Some("こんにちは".to_owned()));
    assert_eq!(pipeline.run(" \u{3000}\n"), None);
    assert_eq!(pipeline.run(""), None);
}

#[test]
fn empty_pipeline_only_trims() {
    let pipeline = RulePipeline::<UrlRule>::new(vec![]);
    assert_eq!(pipeline.run("  https://x  "), Some("https://x".to_owned()));
}

#[test]
fn rules_apply_in_order() {
    let pipeline = RulePipeline::new(default_rules());
    assert_eq!(
        pipeline.run("<:a:1>見て<@2> https://e.com 😀"),
        Some("見て URL省略".to_owned())
    );
    // The URL rule runs before the code block rule.
    assert_eq!(pipeline.run("```https://e.com```"), Some("こんなの読めないのだ".to_owned()));
}

#[test]
fn text_without_tokens_is_unchanged() {
    let pipeline = RulePipeline::new(default_rules());
    assert_eq!(pipeline.run("ふつうの文章です"), Some("ふつうの文章です".to_owned()));
}
