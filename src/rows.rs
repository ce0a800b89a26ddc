use crate::identity::{identity_or_fresh, is_uuid_v4_text};
use crate::model::{
    is_kind_text, kind_of_text, kind_text, lemma_kind_round_trip, lemma_unknown_kind_is_skin, opt_bytes, opt_text, SkinType, Texture, TextureModel, User, UserModel,
};
use vstd::prelude::*;

verus! {

/// A row of the `users` table: a user whose identity is settled.
#[derive(Debug, Clone)]
pub struct UserRow {
    pub id: String,
    pub username: String,
    pub password_hash: String,
    pub avatar_image: Option<Vec<u8>>,
    pub selected_skin_id: Option<String>,
    pub selected_cape_id: Option<String>,
}

/// Mathematical model of a [`UserRow`].
pub struct UserRowModel {
    pub id: Seq<char>,
    pub username: Seq<char>,
    pub password_hash: Seq<char>,
    pub avatar_image: Option<Seq<u8>>,
    pub selected_skin_id: Option<Seq<char>>,
    pub selected_cape_id: Option<Seq<char>>,
}

impl View for UserRow {
    type V = UserRowModel;

    open spec fn view(&self) -> UserRowModel {
        UserRowModel {
            id: self.id@,
            username: self.username@,
            password_hash: self.password_hash@,
            avatar_image: opt_bytes(self.avatar_image),
            selected_skin_id: opt_text(self.selected_skin_id),
            selected_cape_id: opt_text(self.selected_cape_id),
        }
    }
}

/// The row that stores user `u` under identity `id`.
pub open spec fn user_row_of(u: UserModel, id: Seq<char>) -> UserRowModel {
    UserRowModel {
        id,
        username: u.username,
        password_hash: u.password_hash,
        avatar_image: u.avatar_image,
        selected_skin_id: u.selected_skin_id,
        selected_cape_id: u.selected_cape_id,
    }
}

/// The user that a stored row holds.
pub open spec fn user_of_row(r: UserRowModel) -> UserModel {
    UserModel {
        id: Some(r.id),
        username: r.username,
        password_hash: r.password_hash,
        avatar_image: r.avatar_image,
        selected_skin_id: r.selected_skin_id,
        selected_cape_id: r.selected_cape_id,
    }
}

/// `row` is a row that stores user `u`: under the identity `u` carries, or
/// under a version-4 UUID where it carries none.
pub open spec fn user_row_for(u: UserModel, row: UserRowModel) -> bool {
    &&& row == user_row_of(u, row.id)
    &&& match u.id {
        Some(id) => row.id == id,
        None => is_uuid_v4_text(row.id),
    }
}

impl UserRow {
    /// The row that stores `user`: under its own identity, or under a fresh
    /// version-4 UUID where it has none.
    pub fn from_user(user: User) -> (r: UserRow)
        ensures
            user_row_for(user@, r@),
    {
        let id = identity_or_fresh(user.id);
        UserRow {
            id,
            username: user.username,
            password_hash: user.password_hash,
            avatar_image: user.avatar_image,
            selected_skin_id: user.selected_skin_id,
            selected_cape_id: user.selected_cape_id,
        }
    }

    /// The user this row holds, its identity filled in.
    pub fn into_user(self) -> (r: User)
        ensures
            r@ == user_of_row(self@),
    {
        User {
            id: Some(self.id),
            username: self.username,
            password_hash: self.password_hash,
            avatar_image: self.avatar_image,
            selected_skin_id: self.selected_skin_id,
            selected_cape_id: self.selected_cape_id,
        }
    }
}

/// A row of the `textures` table: a texture whose identity is settled and
/// whose kind is held as text.
#[derive(Debug, Clone)]
pub struct TextureRow {
    pub id: String,
    pub skin_name: String,
    pub texture_type: String,
    pub image_data: Vec<u8>,
}

/// Mathematical model of a [`TextureRow`].
pub struct TextureRowModel {
    pub id: Seq<char>,
    pub skin_name: Seq<char>,
    pub texture_type: Seq<char>,
    pub image_data: Seq<u8>,
}

impl View for TextureRow {
    type V = TextureRowModel;

    open spec fn view(&self) -> TextureRowModel {
        TextureRowModel {
            id: self.id@,
            skin_name: self.skin_name@,
            texture_type: self.texture_type@,
            image_data: self.image_data@,
        }
    }
}

/// The row that stores texture `t` under identity `id`, its kind as
/// canonical text.
pub open spec fn texture_row_of(t: TextureModel, id: Seq<char>) -> TextureRowModel {
    TextureRowModel {
        id,
        skin_name: t.skin_name,
        texture_type: kind_text(t.texture_type),
        image_data: t.image_data,
    }
}

/// The texture that a stored row holds; a kind text that names no kind
/// reads as `Skin`.
pub open spec fn texture_of_row(r: TextureRowModel) -> TextureModel {
    TextureModel {
        id: Some(r.id),
        skin_name: r.skin_name,
        texture_type: kind_of_text(r.texture_type),
        image_data: r.image_data,
    }
}

/// `row` is a row that stores texture `t`: under the identity `t` carries,
/// or under a version-4 UUID where it carries none.
pub open spec fn texture_row_for(t: TextureModel, row: TextureRowModel) -> bool {
    &&& row == texture_row_of(t, row.id)
    &&& match t.id {
        Some(id) => row.id == id,
        None => is_uuid_v4_text(row.id),
    }
}

impl TextureRow {
    /// The row that stores `texture`: under its own identity, or under a
    /// fresh version-4 UUID where it has none.
    pub fn from_texture(texture: Texture) -> (r: TextureRow)
        ensures
            texture_row_for(texture@, r@),
    {
        let id = identity_or_fresh(texture.id);
        let texture_type = texture.texture_type.as_str().to_owned();
        TextureRow { id, skin_name: texture.skin_name, texture_type, image_data: texture.image_data }
    }

    /// The texture this row holds, its identity filled in and its kind read
    /// from text.
    pub fn into_texture(self) -> (r: Texture)
        ensures
            r@ == texture_of_row(self@),
    {
        let texture_type = SkinType::from_stored(self.texture_type.as_str());
        Texture {
            id: Some(self.id),
            skin_name: self.skin_name,
            texture_type,
            image_data: self.image_data,
        }
    }
}

/// The users that the rows of a read hold, in the order read.
pub fn users_from_rows(rows: Vec<UserRow>) -> (r: Vec<User>)
    ensures
        r@.len() == rows@.len(),
        forall|i: int| 0 <= i < rows@.len() ==> #[trigger] r@[i]@ == user_of_row(rows@[i]@),
{
    let ghost read = rows@;
    let mut users: Vec<User> = Vec::new();
    for row in it: rows.into_iter()
        invariant
            it.seq() == read,
            users@.len() == it.index(),
            forall|j: int| 0 <= j < users@.len() ==> #[trigger] users@[j]@ == user_of_row(read[j]@),
    {
        users.push(row.into_user());
    }
    users
}

/// The textures that the rows of a read hold, in the order read.
pub fn textures_from_rows(rows: Vec<TextureRow>) -> (r: Vec<Texture>)
    ensures
        r@.len() == rows@.len(),
        forall|i: int|
            0 <= i < rows@.len() ==> #[trigger] r@[i]@ == texture_of_row(rows@[i]@),
{
    let ghost read = rows@;
    let mut textures: Vec<Texture> = Vec::new();
    for row in it: rows.into_iter()
        invariant
            it.seq() == read,
            textures@.len() == it.index(),
            forall|j: int|
                0 <= j < textures@.len() ==> #[trigger] textures@[j]@ == texture_of_row(read[j]@),
    {
        textures.push(row.into_texture());
    }
    textures
}

/// A table of users as the store keeps it: rows by identity.
pub type UserTable = Map<Seq<char>, UserRowModel>;

/// A table of textures as the store keeps it: rows by identity.
pub type TextureTable = Map<Seq<char>, TextureRowModel>;

/// Writing `row` into a user table: insert, or replace the row of the same
/// identity.
pub open spec fn upsert_user(table: UserTable, row: UserRowModel) -> UserTable {
    table.insert(row.id, row)
}

/// Writing `row` into a texture table: insert, or replace the row of the
/// same identity.
pub open spec fn upsert_texture(table: TextureTable, row: TextureRowModel) -> TextureTable {
    table.insert(row.id, row)
}

/// Adding a user twice with the same identity and fields writes the same
/// row both times, and the table afterwards is the table after the first
/// write: one row under that identity, holding those fields.
pub proof fn lemma_add_user_idempotent(table: UserTable, u: UserModel, first: UserRowModel, second: UserRowModel)
    requires
        u.id is Some,
        user_row_for(u, first),
        user_row_for(u, second),
    ensures
        first == second,
        upsert_user(upsert_user(table, first), second) == upsert_user(table, first),
        upsert_user(table, first).dom() == table.dom().insert(u.id->Some_0),
        user_of_row(upsert_user(table, first)[u.id->Some_0]) == u,
{
    assert(upsert_user(upsert_user(table, first), second) =~= upsert_user(table, first));
}

/// A user, once written, reads back as it was, with the identity it was
/// stored under.
pub proof fn lemma_stored_user_reads_back(u: UserModel, row: UserRowModel)
    requires
        user_row_for(u, row),
    ensures
        user_of_row(row) == (UserModel { id: Some(row.id), ..u }),
        u.id is Some ==> user_of_row(row) == u,
{
}

/// A texture, once written, reads back as it was, kind included, with the
/// identity it was stored under.
pub proof fn lemma_stored_texture_reads_back(t: TextureModel, row: TextureRowModel)
    requires
        texture_row_for(t, row),
    ensures
        texture_of_row(row) == (TextureModel { id: Some(row.id), ..t }),
        t.id is Some ==> texture_of_row(row) == t,
{
    lemma_kind_round_trip(t.texture_type);
}

/// Adding a user that carries no identity stores it under a version-4 UUID,
/// and reading the table back gives that user, with that identity, as the
/// row holds it.
pub proof fn lemma_add_user_assigns_identity(table: UserTable, u: UserModel, row: UserRowModel)
    requires
        u.id is None,
        user_row_for(u, row),
    ensures
        is_uuid_v4_text(row.id),
        upsert_user(table, row).contains_key(row.id),
        user_of_row(upsert_user(table, row)[row.id]) == (UserModel { id: Some(row.id), ..u }),
{
}

/// Adding a texture that carries no identity stores it under a version-4
/// UUID, and reading the table back gives that texture, with that identity.
pub proof fn lemma_add_texture_assigns_identity(table: TextureTable, t: TextureModel, row: TextureRowModel)
    requires
        t.id is None,
        texture_row_for(t, row),
    ensures
        is_uuid_v4_text(row.id),
        upsert_texture(table, row).contains_key(row.id),
        texture_of_row(upsert_texture(table, row)[row.id]) == (TextureModel { id: Some(row.id), ..t }),
{
    lemma_kind_round_trip(t.texture_type);
}

/// A texture table after the rows of `rows` were written one after another,
/// in that order.
pub open spec fn upsert_textures(table: TextureTable, rows: Seq<TextureRowModel>) -> TextureTable
    decreases rows.len(),
{
    if rows.len() == 0 {
        table
    } else {
        upsert_texture(upsert_textures(table, rows.drop_last()), rows.last())
    }
}

/// No two of `rows` share an identity.
pub open spec fn distinct_ids(rows: Seq<TextureRowModel>) -> bool {
    forall|i: int, j: int| 0 <= i < j < rows.len() ==> rows[i].id != rows[j].id
}

/// Rows with distinct identities, written into an empty table in whatever
/// order they commit, are all kept: the table holds exactly that many rows,
/// each under its own identity.
pub proof fn lemma_distinct_texture_writes_all_kept(rows: Seq<TextureRowModel>)
    requires
        distinct_ids(rows),
    ensures
        upsert_textures(Map::empty(), rows).dom().finite(),
        upsert_textures(Map::empty(), rows).dom().len() == rows.len(),
        forall|i: int|
            0 <= i < rows.len() ==> upsert_textures(Map::empty(), rows)[#[trigger] rows[i].id] == rows[i],
        forall|k: Seq<char>|
            #[trigger] upsert_textures(Map::empty(), rows).contains_key(k) ==> exists|i: int|
                0 <= i < rows.len() && rows[i].id == k,
    decreases rows.len(),
{
    if rows.len() > 0 {
        let init = rows.drop_last();
        assert(distinct_ids(init));
        lemma_distinct_texture_writes_all_kept(init);
        let before = upsert_textures(Map::empty(), init);
        let last = rows.last();
        assert(!before.contains_key(last.id)) by {
            if before.contains_key(last.id) {
                let i = choose|i: int| 0 <= i < init.len() && init[i].id == last.id;
                assert(rows[i].id == rows[rows.len() - 1].id);
            }
        }
        assert forall|i: int| 0 <= i < rows.len() implies upsert_textures(Map::empty(), rows)[#[trigger] rows[i].id] == rows[i] by {
            if i < rows.len() - 1 {
                assert(init[i] == rows[i]);
            }
        }
        assert forall|k: Seq<char>| #[trigger] upsert_textures(Map::empty(), rows).contains_key(k) implies exists|i: int|
                0 <= i < rows.len() && rows[i].id == k by {
            if k != last.id {
                let i = choose|i: int| 0 <= i < init.len() && init[i].id == k;
                assert(rows[i].id == k);
            } else {
                assert(rows[rows.len() - 1].id == k);
            }
        }
    }
}

/// A stored texture whose kind text is replaced by one that names no kind
/// reads back as a `Skin` with all its other fields intact.
pub proof fn lemma_corrupted_kind_reads_as_skin(t: TextureModel, row: TextureRowModel, corrupted: Seq<char>)
    requires
        texture_row_for(t, row),
        !is_kind_text(corrupted),
    ensures
        texture_of_row(TextureRowModel { texture_type: corrupted, ..row }) == (TextureModel {
            id: Some(row.id),
            texture_type: SkinType::Skin,
            ..t
        }),
{
    lemma_unknown_kind_is_skin(corrupted);
}

} // verus!
