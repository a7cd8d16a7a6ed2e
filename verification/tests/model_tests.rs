//! Shared model types: the channel-type numbering on the wire.

use discord_ipc_rust::models::shared::ChannelType;

#[test]
fn channel_type_values_match_the_wire_numbering() {
    assert_eq!(ChannelType::GuildText.to_u32(), 0);
    assert_eq!(ChannelType::DirectMessage.to_u32(), 1);
    assert_eq!(ChannelType::GuildVoice.to_u32(), 2);
    assert_eq!(ChannelType::GroupDirectMessage.to_u32(), 3);
    assert_eq!(ChannelType::GuildCategory.to_u32(), 4);
    assert_eq!(ChannelType::GuildAnnouncement.to_u32(), 5);
    assert_eq!(ChannelType::AnnouncementThread.to_u32(), 10);
    assert_eq!(ChannelType::PublicThread.to_u32(), 11);
    assert_eq!(ChannelType::PrivateThread.to_u32(), 12);
    assert_eq!(ChannelType::GuildStageVoice.to_u32(), 13);
    assert_eq!(ChannelType::GuildDirectory.to_u32(), 14);
    assert_eq!(ChannelType::GuildForum.to_u32(), 15);
    assert_eq!(ChannelType::GuildMedia.to_u32(), 16);
}

#[test]
fn channel_type_round_trips_through_its_value() {
    for v in 0..17u32 {
        match ChannelType::from_u32(v) {
            Some(t) => assert_eq!(t.to_u32(), v),
            None => assert!((6..=9).contains(&v)),
        }
    }
    assert_eq!(ChannelType::from_u32(17), None);
}
