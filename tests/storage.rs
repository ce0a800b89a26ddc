use mcss::identity::identity_or_fresh;
use mcss::rows::{textures_from_rows, users_from_rows, TextureRow, UserRow};
use mcss::{SkinType, Texture, User};

fn is_uuid_v4(s: &str) -> bool {
    let b = s.as_bytes();
    b.len() == 36
        && b.iter().enumerate().all(|(i, c)| match i {
            8 | 13 | 18 | 23 => *c == b'-',
            _ => c.is_ascii_digit() || (b'a'..=b'f').contains(c),
        })
        && b[14] == b'4'
        && b"89ab".contains(&b[19])
}

fn user(id: Option<&str>) -> User {
    User {
        id: id.map(|s| s.to_string()),
        username: "a".to_string(),
        password_hash: "h".to_string(),
        avatar_image: Some(vec![9, 8]),
        selected_skin_id: Some("skin-1".to_string()),
        selected_cape_id: None,
    }
}

fn texture(id: Option<&str>) -> Texture {
    Texture {
        id: id.map(|s| s.to_string()),
        skin_name: "s".to_string(),
        texture_type: SkinType::Elytra,
        image_data: vec![1, 2, 3],
    }
}

#[test]
fn given_identity_is_kept() {
    assert_eq!(identity_or_fresh(Some("given".to_string())), "given");
}

#[test]
fn missing_identity_becomes_uuid_v4() {
    let id = identity_or_fresh(None);
    assert!(is_uuid_v4(&id), "{id}");
}

#[test]
fn user_without_identity_is_stored_under_fresh_uuid() {
    let row = UserRow::from_user(user(None));
    assert!(is_uuid_v4(&row.id));
    assert_eq!(row.username, "a");
    assert_eq!(row.password_hash, "h");
    assert_eq!(row.avatar_image, Some(vec![9, 8]));
    assert_eq!(row.selected_skin_id.as_deref(), Some("skin-1"));
    assert_eq!(row.selected_cape_id, None);
    let id = row.id.clone();
    let back = row.into_user();
    assert_eq!(back.id, Some(id));
    assert_eq!(back.username, "a");
}

#[test]
fn resubmitting_user_writes_the_same_row() {
    let first = UserRow::from_user(user(Some("u-1")));
    let second = UserRow::from_user(user(Some("u-1")));
    assert_eq!(first.id, "u-1");
    assert_eq!(second.id, "u-1");
    assert_eq!(first.username, second.username);
    assert_eq!(first.password_hash, second.password_hash);
    assert_eq!(first.avatar_image, second.avatar_image);
    assert_eq!(first.selected_skin_id, second.selected_skin_id);
    assert_eq!(first.selected_cape_id, second.selected_cape_id);
}

#[test]
fn texture_row_holds_kind_as_text() {
    let row = TextureRow::from_texture(texture(Some("t-1")));
    assert_eq!(row.id, "t-1");
    assert_eq!(row.texture_type, "Elytra");
    assert_eq!(row.skin_name, "s");
    assert_eq!(row.image_data, vec![1, 2, 3]);
    let back = row.into_texture();
    assert_eq!(back.id.as_deref(), Some("t-1"));
    assert_eq!(back.texture_type, SkinType::Elytra);
}

#[test]
fn textures_without_identity_get_distinct_uuids() {
    let n = 50;
    let rows: Vec<TextureRow> = (0..n).map(|_| TextureRow::from_texture(texture(None))).collect();
    let mut ids: Vec<String> = rows.iter().map(|r| r.id.clone()).collect();
    assert!(ids.iter().all(|i| is_uuid_v4(i)));
    ids.sort();
    ids.dedup();
    assert_eq!(ids.len(), n);
    let read = textures_from_rows(rows);
    assert_eq!(read.len(), n);
}

#[test]
fn reads_keep_row_order() {
    let rows = vec![
        TextureRow::from_texture(texture(Some("b"))),
        TextureRow::from_texture(texture(Some("a"))),
    ];
    let read = textures_from_rows(rows);
    assert_eq!(read[0].id.as_deref(), Some("b"));
    assert_eq!(read[1].id.as_deref(), Some("a"));
    let users = users_from_rows(vec![UserRow::from_user(user(Some("z"))), UserRow::from_user(user(Some("y")))]);
    assert_eq!(users[0].id.as_deref(), Some("z"));
    assert_eq!(users[1].id.as_deref(), Some("y"));
}

#[test]
fn empty_read_gives_no_records() {
    assert!(textures_from_rows(Vec::new()).is_empty());
    assert!(users_from_rows(Vec::new()).is_empty());
}
