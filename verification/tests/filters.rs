use yomiage::application::filter_chain::MessageFilterChain;
use yomiage::application::filters::VcMembershipFilter;
use yomiage::domain::message_filter::IncomingMessage;

fn message(in_vc: bool) -> IncomingMessage {
    IncomingMessage {
        guild_id: 1,
        author_id: 2,
        channel_id: 3,
        author_in_bot_voice_channel: in_vc,
    }
}

#[test]
fn allows_member_in_bot_vc() {
    let chain = MessageFilterChain::new(vec![VcMembershipFilter]);
    assert!(chain.evaluate(&message(true)));
}

#[test]
fn rejects_non_member() {
    let chain = MessageFilterChain::new(vec![VcMembershipFilter]);
    assert!(!chain.evaluate(&message(false)));
}

#[test]
fn empty_chain_allows_all() {
    let chain = MessageFilterChain::<VcMembershipFilter>::new(vec![]);
    assert!(chain.evaluate(&message(false)));
}
