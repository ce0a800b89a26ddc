use vstd::prelude::*;

verus! {

/// What a texture asset is drawn on.
#[derive(Debug, Clone, Copy, PartialEq, Eq, Structural)]
pub enum SkinType {
    Skin,
    Cape,
    Elytra,
}

/// Canonical text of a texture kind, as it is stored.
pub open spec fn kind_text(k: SkinType) -> Seq<char> {
    match k {
        SkinType::Skin => "Skin"@,
        SkinType::Cape => "Cape"@,
        SkinType::Elytra => "Elytra"@,
    }
}

/// Texture kind read back from stored text: the canonical texts give their
/// kind, every other text falls back to `Skin`.
pub open spec fn kind_of_text(s: Seq<char>) -> SkinType {
    if s == "Cape"@ {
        SkinType::Cape
    } else if s == "Elytra"@ {
        SkinType::Elytra
    } else {
        SkinType::Skin
    }
}

/// Whether `s` is the canonical text of some texture kind.
pub open spec fn is_kind_text(s: Seq<char>) -> bool {
    s == "Skin"@ || s == "Cape"@ || s == "Elytra"@
}

impl SkinType {
    /// The canonical text of this kind.
    pub fn as_str(&self) -> (r: &'static str)
        ensures
            r@ == kind_text(*self),
    {
        match self {
            SkinType::Skin => "Skin",
            SkinType::Cape => "Cape",
            SkinType::Elytra => "Elytra",
        }
    }

    /// The kind that a stored text names; a text that names none reads as
    /// `Skin`, never as an error.
    pub fn from_stored(s: &str) -> (r: SkinType)
        ensures
            r == kind_of_text(s@),
    {
        let text = s.to_owned();
        if text == "Cape".to_owned() {
            SkinType::Cape
        } else if text == "Elytra".to_owned() {
            SkinType::Elytra
        } else {
            SkinType::Skin
        }
    }
}

/// The canonical texts of the three kinds are distinct.
proof fn lemma_kind_texts_distinct()
    ensures
        "Skin"@ != "Cape"@,
        "Skin"@ != "Elytra"@,
        "Cape"@ != "Elytra"@,
{
    reveal_strlit("Skin");
    reveal_strlit("Cape");
    reveal_strlit("Elytra");
    assert("Skin"@[0] != "Cape"@[0]);
    assert("Skin"@[0] != "Elytra"@[0]);
    assert("Cape"@[0] != "Elytra"@[0]);
}

/// Every texture kind survives the trip through its stored text.
pub proof fn lemma_kind_round_trip(k: SkinType)
    ensures
        kind_of_text(kind_text(k)) == k,
        is_kind_text(kind_text(k)),
{
    lemma_kind_texts_distinct();
}

/// A stored text that names no kind reads back as `Skin`.
pub proof fn lemma_unknown_kind_is_skin(s: Seq<char>)
    requires
        !is_kind_text(s),
    ensures
        kind_of_text(s) == SkinType::Skin,
{
}

/// The text of an optional string.
pub open spec fn opt_text(o: Option<String>) -> Option<Seq<char>> {
    match o {
        Some(s) => Some(s@),
        None => None,
    }
}

/// The bytes of an optional byte vector.
pub open spec fn opt_bytes(o: Option<Vec<u8>>) -> Option<Seq<u8>> {
    match o {
        Some(v) => Some(v@),
        None => None,
    }
}

/// A user account. The password hash is opaque and never read; the selected
/// skin and cape refer to textures by identity.
#[derive(Debug, Clone)]
pub struct User {
    pub id: Option<String>,
    pub username: String,
    pub password_hash: String,
    pub avatar_image: Option<Vec<u8>>,
    pub selected_skin_id: Option<String>,
    pub selected_cape_id: Option<String>,
}

/// Mathematical model of a [`User`].
pub struct UserModel {
    pub id: Option<Seq<char>>,
    pub username: Seq<char>,
    pub password_hash: Seq<char>,
    pub avatar_image: Option<Seq<u8>>,
    pub selected_skin_id: Option<Seq<char>>,
    pub selected_cape_id: Option<Seq<char>>,
}

impl View for User {
    type V = UserModel;

    open spec fn view(&self) -> UserModel {
        UserModel {
            id: opt_text(self.id),
            username: self.username@,
            password_hash: self.password_hash@,
            avatar_image: opt_bytes(self.avatar_image),
            selected_skin_id: opt_text(self.selected_skin_id),
            selected_cape_id: opt_text(self.selected_cape_id),
        }
    }
}

/// A texture asset with its image as raw bytes.
#[derive(Debug, Clone)]
pub struct Texture {
    pub id: Option<String>,
    pub skin_name: String,
    pub texture_type: SkinType,
    pub image_data: Vec<u8>,
}

/// Mathematical model of a [`Texture`].
pub struct TextureModel {
    pub id: Option<Seq<char>>,
    pub skin_name: Seq<char>,
    pub texture_type: SkinType,
    pub image_data: Seq<u8>,
}

impl View for Texture {
    type V = TextureModel;

    open spec fn view(&self) -> TextureModel {
        TextureModel {
            id: opt_text(self.id),
            skin_name: self.skin_name@,
            texture_type: self.texture_type,
            image_data: self.image_data@,
        }
    }
}

/// A texture as it travels over the wire: its image is base64 text.
#[derive(Debug, Clone)]
pub struct ApiTexture {
    pub id: Option<String>,
    pub skin_name: String,
    pub texture_type: SkinType,
    pub image_data: String,
}

/// Mathematical model of an [`ApiTexture`].
pub struct ApiTextureModel {
    pub id: Option<Seq<char>>,
    pub skin_name: Seq<char>,
    pub texture_type: SkinType,
    pub image_data: Seq<char>,
}

impl View for ApiTexture {
    type V = ApiTextureModel;

    open spec fn view(&self) -> ApiTextureModel {
        ApiTextureModel {
            id: opt_text(self.id),
            skin_name: self.skin_name@,
            texture_type: self.texture_type,
            image_data: self.image_data@,
        }
    }
}

} // verus!
