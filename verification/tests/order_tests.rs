use bevy_demo::order::{stable_order_by_int, stable_order_by_text, text_precedes};
use bevy_demo::systems::colors::PlayerColor;
use bevy_demo::systems::player_list::{banner_images, banner_name, online_banner_order, PlayerEntry};
use bevy_demo::tui::{message_lines, online_user_entries, same_identity, sender_name, ChatMessage, ChatUser};

#[test]
fn texts_compare_as_str_does() {
    let pairs = [("", "a"), ("a", "b"), ("ab", "abc"), ("Zed", "ant"), ("héllo", "hello"), ("same", "same")];
    for (a, b) in pairs {
        assert_eq!(text_precedes(a, b), a < b, "{a} < {b}");
        assert_eq!(text_precedes(b, a), b < a, "{b} < {a}");
    }
}

#[test]
fn integer_keys_sort_stably() {
    assert_eq!(stable_order_by_int(&vec![]), Vec::<usize>::new());
    assert_eq!(stable_order_by_int(&vec![30, 10, 30, 20, 10]), vec![1, 4, 3, 0, 2]);
    assert_eq!(stable_order_by_int(&vec![-5, i64::MAX, i64::MIN]), vec![2, 0, 1]);
}

#[test]
fn text_keys_sort_stably() {
    let keys: Vec<String> = ["bob", "Anonymous", "alice", "bob", "Anonymous"].iter().map(|s| s.to_string()).collect();
    let order = stable_order_by_text(&keys);
    assert_eq!(order, vec![1, 4, 2, 0, 3]);
    let mut expected: Vec<usize> = (0..keys.len()).collect();
    expected.sort_by(|&a, &b| keys[a].cmp(&keys[b]));
    assert_eq!(order, expected);
}

fn user(id: u8, name: Option<&str>, online: bool) -> ChatUser {
    ChatUser {
        identity: vec![id, 0, 7],
        short_id: format!("id{id}"),
        name: name.map(|n| n.to_string()),
        online,
    }
}

fn message(sender: u8, sent: i64, text: &str) -> ChatMessage {
    ChatMessage { sender: vec![sender, 0, 7], sender_short_id: format!("id{sender}"), sent, text: text.to_string() }
}

#[test]
fn identities_compare_by_bytes() {
    assert!(same_identity(&vec![1, 2], &vec![1, 2]));
    assert!(!same_identity(&vec![1, 2], &vec![1, 3]));
    assert!(!same_identity(&vec![1, 2], &vec![1, 2, 0]));
}

#[test]
fn senders_go_by_their_chosen_name() {
    let users = vec![user(1, Some("ann"), true), user(2, None, false)];
    assert_eq!(sender_name(&users, &vec![1, 0, 7], &"id1".to_string()), "ann");
    assert_eq!(sender_name(&users, &vec![2, 0, 7], &"id2".to_string()), "id2");
    assert_eq!(sender_name(&users, &vec![9, 0, 7], &"id9".to_string()), "id9");
}

#[test]
fn only_connected_users_are_listed() {
    let users = vec![user(1, Some("ann"), true), user(2, None, false), user(3, None, true)];
    let me = Some(vec![3, 0, 7]);
    assert_eq!(
        online_user_entries(&users, &me),
        vec![("ann".to_string(), false), ("id3".to_string(), true)]
    );
    assert_eq!(online_user_entries(&users, &None), vec![("ann".to_string(), false), ("id3".to_string(), false)]);
    assert!(online_user_entries(&vec![], &me).is_empty());
}

#[test]
fn messages_come_oldest_first() {
    let users = vec![user(1, Some("ann"), true), user(2, None, true)];
    let messages = vec![message(2, 50, "late"), message(1, 10, "first"), message(9, 50, "also late"), message(1, 20, "second")];
    let lines = message_lines(&messages, &users);
    let expected: Vec<(String, String)> = [("ann", "first"), ("ann", "second"), ("id2", "late"), ("id9", "also late")]
        .iter()
        .map(|(a, b)| (a.to_string(), b.to_string()))
        .collect();
    assert_eq!(lines, expected);
}

fn player(name: Option<&str>, online: bool, color: PlayerColor) -> PlayerEntry {
    PlayerEntry { name: name.map(|n| n.to_string()), online, color }
}

#[test]
fn banners_list_connected_players_by_name() {
    let players = vec![
        player(Some("zoe"), true, PlayerColor::Blue),
        player(None, true, PlayerColor::Black),
        player(Some("amy"), false, PlayerColor::Yellow),
        player(Some("Bea"), true, PlayerColor::Purple),
        player(None, true, PlayerColor::Blue),
    ];
    assert_eq!(online_banner_order(&players), vec![1, 4, 3, 0]);
    assert!(online_banner_order(&vec![player(Some("x"), false, PlayerColor::Blue)]).is_empty());
    assert_eq!(banner_name(&None), "Anonymous");
    assert_eq!(banner_name(&Some("zoe".to_string())), "zoe");
}

#[test]
fn banner_pictures_follow_the_colour() {
    assert_eq!(
        banner_images(PlayerColor::Purple),
        (
            "UI Elements/UI Elements/Ribbons/Ribbon_Purple.png",
            "UI Elements/UI Elements/Human Avatars/Avatar_Purple.png"
        )
    );
    assert_eq!(banner_images(PlayerColor::Black).0, "UI Elements/UI Elements/Ribbons/Ribbon_Black.png");
}
