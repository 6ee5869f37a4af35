use custody_settlement::pubkey_eq;
use custody_settlement::schema::{EntryData, EntryType, ForumConfig, LeafSchema, LeafSchemaEvent,
    OndaSocialEventType, RestrictionType, Version};
use custody_settlement::Pubkey;

fn key(tag: u8) -> Pubkey {
    [tag; 32]
}

fn sample_leaf() -> LeafSchema {
    LeafSchema::new_v0(key(1), EntryType::Comment, key(2), 1_700_000_000, Some(1_700_000_500), 7, [
        9;
        32
    ])
}

#[test]
fn pubkey_equality_is_byte_wise() {
    assert!(pubkey_eq(&key(1), &key(1)));
    assert!(!pubkey_eq(&key(1), &key(2)));
    let mut nearly = key(1);
    nearly[31] = 0;
    assert!(!pubkey_eq(&key(1), &nearly));
}

#[test]
fn forum_config_counts_posts_and_capacity() {
    let mut config = ForumConfig {
        total_capacity: 3,
        post_count: 0,
        restriction: RestrictionType::NoRestriction,
    };
    assert!(config.contains_post_capacity(3));
    assert!(!config.contains_post_capacity(4));
    config.increment_post_count();
    config.increment_post_count();
    assert_eq!(config.post_count, 2);
    assert!(config.contains_post_capacity(1));
    assert!(!config.contains_post_capacity(2));
}

#[test]
fn post_count_saturates_instead_of_wrapping() {
    let mut config = ForumConfig {
        total_capacity: 10,
        post_count: u64::MAX,
        restriction: RestrictionType::Collection { collection: key(4) },
    };
    config.increment_post_count();
    assert_eq!(config.post_count, u64::MAX);
    assert!(config.contains_post_capacity(0));
    assert!(!config.contains_post_capacity(1));
}

#[test]
fn version_and_entry_type_tags_are_stable() {
    assert_eq!(Version::V1.to_bytes(), 1);
    assert_eq!(Version::default(), Version::V1);
    assert_eq!(EntryType::TextPost.to_bytes(), 0);
    assert_eq!(EntryType::ImagePost.to_bytes(), 1);
    assert_eq!(EntryType::LinkPost.to_bytes(), 2);
    assert_eq!(EntryType::Comment.to_bytes(), 3);
}

#[test]
fn default_leaf_is_all_zero() {
    let leaf = LeafSchema::default();
    assert_eq!(leaf.id(), [0; 32]);
    assert_eq!(leaf.nonce(), 0);
    assert_eq!(leaf.data_hash(), [0; 32]);
    assert_eq!(leaf.version(), Version::V1);
}

#[test]
fn leaf_getters_return_the_constructor_arguments() {
    let leaf = sample_leaf();
    assert_eq!(leaf.id(), key(1));
    assert_eq!(leaf.nonce(), 7);
    assert_eq!(leaf.data_hash(), [9; 32]);
    assert_eq!(leaf.version(), Version::V1);
}

#[test]
fn leaf_nodes_are_deterministic_and_injective_in_practice() {
    let leaf = sample_leaf();
    // The digest is a function of the serialised bytes alone.
    assert_eq!(leaf.to_node(), leaf.to_node());
    // It actually digests: the node is not the content hash handed in, not
    // zero, and any field change moves it.
    assert_ne!(leaf.to_node(), [9; 32]);
    assert_ne!(leaf.to_node(), [0; 32]);
    let other = LeafSchema::new_v0(key(1), EntryType::Comment, key(2), 1_700_000_000, Some(
        1_700_000_500,
    ), 8, [9; 32]);
    assert_ne!(leaf.to_node(), other.to_node());
}

#[test]
fn absent_edit_time_serialises_like_zero() {
    let edited = LeafSchema::new_v0(key(1), EntryType::TextPost, key(2), 5, Some(0), 7, [9; 32]);
    let unedited = LeafSchema::new_v0(key(1), EntryType::TextPost, key(2), 5, None, 7, [9; 32]);
    assert_eq!(edited.to_node(), unedited.to_node());
}

#[test]
fn leaf_event_carries_the_leaf_and_its_node() {
    let leaf = sample_leaf();
    let event = leaf.to_event();
    assert_eq!(event.event_type, OndaSocialEventType::LeafSchemaEvent);
    assert_eq!(event.version, Version::V1);
    assert_eq!(event.schema, leaf);
    assert_eq!(event.leaf_hash, leaf.to_node());
    let rebuilt = LeafSchemaEvent::new(Version::V1, leaf, leaf.to_node());
    assert_eq!(rebuilt, event);
}

#[test]
fn entry_data_holds_each_post_kind() {
    let post = EntryData::TextPost { title: String::from("t"), body: String::from("b") };
    let comment = EntryData::Comment { post: key(1), parent: None, body: String::from("c") };
    assert_ne!(post, comment);
    assert_eq!(post.clone(), post);
}
