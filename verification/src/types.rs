//! The domain model: what the user-info endpoint answers with, and how each
//! part is read from a JSON document.
//!
//! A required member that is missing or of another type makes the whole
//! document unreadable. An optional member that is missing or `null` is read
//! as absent, never as an empty text. Members that the model does not name
//! are ignored.
//!
//! Members are read by their keys, and by nothing else. A JSON array is
//! therefore never read as one of these types, even where its elements are
//! the members' values in order: `[200, "Success"]` is no [`Meta`]. Where a
//! document gives one key twice, the value given last is the one that
//! counts, for a required member as for an optional one.

use crate::json::{
    absent, contents, flag_field, i32_field, list_field, object_field, optional_text_field, read_flag,
    read_i32, read_list, read_object, read_optional_text, read_text, read_values, text_field,
    values_field, views, FromJson, Json,
};
use vstd::prelude::*;
use vstd::string::*;

verus! {

/// Root of the answer of the user-info endpoint.
#[derive(Debug, Clone)]
pub struct UserInfoResponse {
    pub meta: Meta,
    pub session: Session,
    pub user: User,
}

/// Status that the provider reports in the body, whatever the HTTP status.
#[derive(Debug, Clone)]
pub struct Meta {
    pub code: i32,
    pub message: String,
}

/// Session information.
#[derive(Debug, Clone)]
pub struct Session {
    /// Wire name: `remainingSeconds`.
    pub remaining_seconds: i32,
}

/// Identity and profile of a user.
#[derive(Debug, Clone)]
pub struct User {
    pub id: String,
    /// Wire name: `externalId`.
    pub external_id: String,
    /// Wire name: `userName`.
    pub user_name: String,
    /// Wire name: `displayName`.
    pub display_name: String,
    /// Wire name: `nickName`.
    pub nick_name: Option<String>,
    /// Wire name: `profileUrl`.
    pub profile_url: Option<String>,
    pub title: Option<String>,
    /// Wire name: `userType`.
    pub user_type: Option<String>,
    /// Wire name: `preferredLanguage`.
    pub preferred_language: Option<String>,
    pub locale: String,
    pub timezone: Option<String>,
    pub active: bool,
    pub names: Names,
    pub photos: Vec<Photo>,
    /// Wire name: `phoneNumbers`. The elements are kept as they came.
    pub phone_numbers: Vec<serde_json::Value>,
    /// The elements are kept as they came.
    pub addresses: Vec<serde_json::Value>,
    pub emails: Vec<Email>,
    pub verifications: Vec<Verification>,
    pub provider: String,
    /// Wire name: `createdAt`. A timestamp, kept as text.
    pub created_at: String,
    /// Wire name: `updatedAt`. A timestamp, kept as text.
    pub updated_at: String,
    /// Wire name: `environmentId`.
    pub environment_id: String,
}

/// The parts of a user's name.
#[derive(Debug, Clone)]
pub struct Names {
    pub id: String,
    pub formatted: Option<String>,
    /// Wire name: `familyName`.
    pub family_name: String,
    /// Wire name: `givenName`.
    pub given_name: String,
    /// Wire name: `middleName`.
    pub middle_name: Option<String>,
    /// Wire name: `honorificPrefix`.
    pub honorific_prefix: Option<String>,
    /// Wire name: `honorificSuffix`.
    pub honorific_suffix: Option<String>,
}

/// A photo of a user.
#[derive(Debug, Clone)]
pub struct Photo {
    pub id: String,
    pub value: String,
    /// Wire name: `type`.
    pub photo_type: String,
}

/// An email address of a user.
#[derive(Debug, Clone)]
pub struct Email {
    pub id: String,
    pub value: String,
    /// Wire name: `type`.
    pub email_type: Option<String>,
}

/// Whether an email address has been verified.
#[derive(Debug, Clone)]
pub struct Verification {
    pub id: String,
    pub email: String,
    pub verified: bool,
    /// Wire name: `createdAt`. A timestamp, kept as text.
    pub created_at: String,
    /// Wire name: `updatedAt`. A timestamp, kept as text.
    pub updated_at: String,
}

/// The body that the provider sends with a failure.
#[derive(Debug, Clone)]
pub struct ErrorResponse {
    pub error: String,
}

/// A [`UserInfoResponse`] as a mathematical value.
pub struct UserInfoResponseView {
    pub meta: MetaView,
    pub session: SessionView,
    pub user: UserView,
}

/// A [`Meta`] as a mathematical value.
pub struct MetaView {
    pub code: int,
    pub message: Seq<char>,
}

/// A [`Session`] as a mathematical value.
pub struct SessionView {
    pub remaining_seconds: int,
}

/// A [`User`] as a mathematical value. The untyped elements are given by the
/// documents that they hold, numbers included.
pub struct UserView {
    pub id: Seq<char>,
    pub external_id: Seq<char>,
    pub user_name: Seq<char>,
    pub display_name: Seq<char>,
    pub nick_name: Option<Seq<char>>,
    pub profile_url: Option<Seq<char>>,
    pub title: Option<Seq<char>>,
    pub user_type: Option<Seq<char>>,
    pub preferred_language: Option<Seq<char>>,
    pub locale: Seq<char>,
    pub timezone: Option<Seq<char>>,
    pub active: bool,
    pub names: NamesView,
    pub photos: Seq<PhotoView>,
    pub phone_numbers: Seq<Json>,
    pub addresses: Seq<Json>,
    pub emails: Seq<EmailView>,
    pub verifications: Seq<VerificationView>,
    pub provider: Seq<char>,
    pub created_at: Seq<char>,
    pub updated_at: Seq<char>,
    pub environment_id: Seq<char>,
}

/// A [`Names`] as a mathematical value.
pub struct NamesView {
    pub id: Seq<char>,
    pub formatted: Option<Seq<char>>,
    pub family_name: Seq<char>,
    pub given_name: Seq<char>,
    pub middle_name: Option<Seq<char>>,
    pub honorific_prefix: Option<Seq<char>>,
    pub honorific_suffix: Option<Seq<char>>,
}

/// A [`Photo`] as a mathematical value.
pub struct PhotoView {
    pub id: Seq<char>,
    pub value: Seq<char>,
    pub photo_type: Seq<char>,
}

/// An [`Email`] as a mathematical value.
pub struct EmailView {
    pub id: Seq<char>,
    pub value: Seq<char>,
    pub email_type: Option<Seq<char>>,
}

/// A [`Verification`] as a mathematical value.
pub struct VerificationView {
    pub id: Seq<char>,
    pub email: Seq<char>,
    pub verified: bool,
    pub created_at: Seq<char>,
    pub updated_at: Seq<char>,
}

/// An [`ErrorResponse`] as a mathematical value.
pub struct ErrorResponseView {
    pub error: Seq<char>,
}

impl View for Meta {
    type V = MetaView;

    open spec fn view(&self) -> MetaView {
        MetaView { code: self.code as int, message: self.message@ }
    }
}

impl View for Session {
    type V = SessionView;

    open spec fn view(&self) -> SessionView {
        SessionView { remaining_seconds: self.remaining_seconds as int }
    }
}

impl View for Names {
    type V = NamesView;

    open spec fn view(&self) -> NamesView {
        NamesView {
            id: self.id@,
            formatted: self.formatted.deep_view(),
            family_name: self.family_name@,
            given_name: self.given_name@,
            middle_name: self.middle_name.deep_view(),
            honorific_prefix: self.honorific_prefix.deep_view(),
            honorific_suffix: self.honorific_suffix.deep_view(),
        }
    }
}

impl View for Photo {
    type V = PhotoView;

    open spec fn view(&self) -> PhotoView {
        PhotoView { id: self.id@, value: self.value@, photo_type: self.photo_type@ }
    }
}

impl View for Email {
    type V = EmailView;

    open spec fn view(&self) -> EmailView {
        EmailView { id: self.id@, value: self.value@, email_type: self.email_type.deep_view() }
    }
}

impl View for Verification {
    type V = VerificationView;

    open spec fn view(&self) -> VerificationView {
        VerificationView {
            id: self.id@,
            email: self.email@,
            verified: self.verified,
            created_at: self.created_at@,
            updated_at: self.updated_at@,
        }
    }
}

impl View for User {
    type V = UserView;

    open spec fn view(&self) -> UserView {
        UserView {
            id: self.id@,
            external_id: self.external_id@,
            user_name: self.user_name@,
            display_name: self.display_name@,
            nick_name: self.nick_name.deep_view(),
            profile_url: self.profile_url.deep_view(),
            title: self.title.deep_view(),
            user_type: self.user_type.deep_view(),
            preferred_language: self.preferred_language.deep_view(),
            locale: self.locale@,
            timezone: self.timezone.deep_view(),
            active: self.active,
            names: self.names@,
            photos: views(self.photos@),
            phone_numbers: contents(self.phone_numbers@),
            addresses: contents(self.addresses@),
            emails: views(self.emails@),
            verifications: views(self.verifications@),
            provider: self.provider@,
            created_at: self.created_at@,
            updated_at: self.updated_at@,
            environment_id: self.environment_id@,
        }
    }
}

impl View for UserInfoResponse {
    type V = UserInfoResponseView;

    open spec fn view(&self) -> UserInfoResponseView {
        UserInfoResponseView { meta: self.meta@, session: self.session@, user: self.user@ }
    }
}

impl View for ErrorResponse {
    type V = ErrorResponseView;

    open spec fn view(&self) -> ErrorResponseView {
        ErrorResponseView { error: self.error@ }
    }
}

impl FromJson for Meta {
    open spec fn decode(j: Json) -> Option<MetaView> {
        if i32_field(j, "code"@) is Some && text_field(j, "message"@) is Some {
            Some(MetaView { code: i32_field(j, "code"@)->0, message: text_field(j, "message"@)->0 })
        } else {
            None
        }
    }

    fn from_value(value: &serde_json::Value) -> (r: Option<Self>) {
        let code = read_i32(value, "code")?;
        let message = read_text(value, "message")?;
        Some(Meta { code, message })
    }
}

impl FromJson for Session {
    open spec fn decode(j: Json) -> Option<SessionView> {
        if i32_field(j, "remainingSeconds"@) is Some {
            Some(SessionView { remaining_seconds: i32_field(j, "remainingSeconds"@)->0 })
        } else {
            None
        }
    }

    fn from_value(value: &serde_json::Value) -> (r: Option<Self>) {
        let remaining_seconds = read_i32(value, "remainingSeconds")?;
        Some(Session { remaining_seconds })
    }
}

impl FromJson for Names {
    open spec fn decode(j: Json) -> Option<NamesView> {
        if text_field(j, "id"@) is Some && optional_text_field(j, "formatted"@) is Some
            && text_field(j, "familyName"@) is Some && text_field(j, "givenName"@) is Some
            && optional_text_field(j, "middleName"@) is Some && optional_text_field(
            j,
            "honorificPrefix"@,
        ) is Some && optional_text_field(j, "honorificSuffix"@) is Some {
            Some(
                NamesView {
                    id: text_field(j, "id"@)->0,
                    formatted: optional_text_field(j, "formatted"@)->0,
                    family_name: text_field(j, "familyName"@)->0,
                    given_name: text_field(j, "givenName"@)->0,
                    middle_name: optional_text_field(j, "middleName"@)->0,
                    honorific_prefix: optional_text_field(j, "honorificPrefix"@)->0,
                    honorific_suffix: optional_text_field(j, "honorificSuffix"@)->0,
                },
            )
        } else {
            None
        }
    }

    fn from_value(value: &serde_json::Value) -> (r: Option<Self>) {
        let id = read_text(value, "id")?;
        let formatted = read_optional_text(value, "formatted")?;
        let family_name = read_text(value, "familyName")?;
        let given_name = read_text(value, "givenName")?;
        let middle_name = read_optional_text(value, "middleName")?;
        let honorific_prefix = read_optional_text(value, "honorificPrefix")?;
        let honorific_suffix = read_optional_text(value, "honorificSuffix")?;
        Some(
            Names {
                id,
                formatted,
                family_name,
                given_name,
                middle_name,
                honorific_prefix,
                honorific_suffix,
            },
        )
    }
}

impl FromJson for Photo {
    open spec fn decode(j: Json) -> Option<PhotoView> {
        if text_field(j, "id"@) is Some && text_field(j, "value"@) is Some && text_field(
            j,
            "type"@,
        ) is Some {
            Some(
                PhotoView {
                    id: text_field(j, "id"@)->0,
                    value: text_field(j, "value"@)->0,
                    photo_type: text_field(j, "type"@)->0,
                },
            )
        } else {
            None
        }
    }

    fn from_value(value: &serde_json::Value) -> (r: Option<Self>) {
        let id = read_text(value, "id")?;
        let photo_value = read_text(value, "value")?;
        let photo_type = read_text(value, "type")?;
        Some(Photo { id, value: photo_value, photo_type })
    }
}

impl FromJson for Email {
    open spec fn decode(j: Json) -> Option<EmailView> {
        if text_field(j, "id"@) is Some && text_field(j, "value"@) is Some && optional_text_field(
            j,
            "type"@,
        ) is Some {
            Some(
                EmailView {
                    id: text_field(j, "id"@)->0,
                    value: text_field(j, "value"@)->0,
                    email_type: optional_text_field(j, "type"@)->0,
                },
            )
        } else {
            None
        }
    }

    fn from_value(value: &serde_json::Value) -> (r: Option<Self>) {
        let id = read_text(value, "id")?;
        let address = read_text(value, "value")?;
        let email_type = read_optional_text(value, "type")?;
        Some(Email { id, value: address, email_type })
    }
}

impl FromJson for Verification {
    open spec fn decode(j: Json) -> Option<VerificationView> {
        if text_field(j, "id"@) is Some && text_field(j, "email"@) is Some && flag_field(
            j,
            "verified"@,
        ) is Some && text_field(j, "createdAt"@) is Some && text_field(j, "updatedAt"@) is Some {
            Some(
                VerificationView {
                    id: text_field(j, "id"@)->0,
                    email: text_field(j, "email"@)->0,
                    verified: flag_field(j, "verified"@)->0,
                    created_at: text_field(j, "createdAt"@)->0,
                    updated_at: text_field(j, "updatedAt"@)->0,
                },
            )
        } else {
            None
        }
    }

    fn from_value(value: &serde_json::Value) -> (r: Option<Self>) {
        let id = read_text(value, "id")?;
        let email = read_text(value, "email")?;
        let verified = read_flag(value, "verified")?;
        let created_at = read_text(value, "createdAt")?;
        let updated_at = read_text(value, "updatedAt")?;
        Some(Verification { id, email, verified, created_at, updated_at })
    }
}

impl User {
    /// Whether every member of a user is there and of its type.
    pub open spec fn fits(j: Json) -> bool {
        &&& text_field(j, "id"@) is Some
        &&& text_field(j, "externalId"@) is Some
        &&& text_field(j, "userName"@) is Some
        &&& text_field(j, "displayName"@) is Some
        &&& optional_text_field(j, "nickName"@) is Some
        &&& optional_text_field(j, "profileUrl"@) is Some
        &&& optional_text_field(j, "title"@) is Some
        &&& optional_text_field(j, "userType"@) is Some
        &&& optional_text_field(j, "preferredLanguage"@) is Some
        &&& text_field(j, "locale"@) is Some
        &&& optional_text_field(j, "timezone"@) is Some
        &&& flag_field(j, "active"@) is Some
        &&& object_field::<Names>(j, "names"@) is Some
        &&& list_field::<Photo>(j, "photos"@) is Some
        &&& values_field(j, "phoneNumbers"@) is Some
        &&& values_field(j, "addresses"@) is Some
        &&& list_field::<Email>(j, "emails"@) is Some
        &&& list_field::<Verification>(j, "verifications"@) is Some
        &&& text_field(j, "provider"@) is Some
        &&& text_field(j, "createdAt"@) is Some
        &&& text_field(j, "updatedAt"@) is Some
        &&& text_field(j, "environmentId"@) is Some
    }

    /// The user that is read from a document that fits.
    pub open spec fn read(j: Json) -> UserView {
        UserView {
            id: text_field(j, "id"@)->0,
            external_id: text_field(j, "externalId"@)->0,
            user_name: text_field(j, "userName"@)->0,
            display_name: text_field(j, "displayName"@)->0,
            nick_name: optional_text_field(j, "nickName"@)->0,
            profile_url: optional_text_field(j, "profileUrl"@)->0,
            title: optional_text_field(j, "title"@)->0,
            user_type: optional_text_field(j, "userType"@)->0,
            preferred_language: optional_text_field(j, "preferredLanguage"@)->0,
            locale: text_field(j, "locale"@)->0,
            timezone: optional_text_field(j, "timezone"@)->0,
            active: flag_field(j, "active"@)->0,
            names: object_field::<Names>(j, "names"@)->0,
            photos: list_field::<Photo>(j, "photos"@)->0,
            phone_numbers: values_field(j, "phoneNumbers"@)->0,
            addresses: values_field(j, "addresses"@)->0,
            emails: list_field::<Email>(j, "emails"@)->0,
            verifications: list_field::<Verification>(j, "verifications"@)->0,
            provider: text_field(j, "provider"@)->0,
            created_at: text_field(j, "createdAt"@)->0,
            updated_at: text_field(j, "updatedAt"@)->0,
            environment_id: text_field(j, "environmentId"@)->0,
        }
    }
}

impl FromJson for User {
    open spec fn decode(j: Json) -> Option<UserView> {
        if User::fits(j) {
            Some(User::read(j))
        } else {
            None
        }
    }

    fn from_value(value: &serde_json::Value) -> (r: Option<Self>) {
        let id = read_text(value, "id")?;
        let external_id = read_text(value, "externalId")?;
        let user_name = read_text(value, "userName")?;
        let display_name = read_text(value, "displayName")?;
        let nick_name = read_optional_text(value, "nickName")?;
        let profile_url = read_optional_text(value, "profileUrl")?;
        let title = read_optional_text(value, "title")?;
        let user_type = read_optional_text(value, "userType")?;
        let preferred_language = read_optional_text(value, "preferredLanguage")?;
        let locale = read_text(value, "locale")?;
        let timezone = read_optional_text(value, "timezone")?;
        let active = read_flag(value, "active")?;
        let names = read_object::<Names>(value, "names")?;
        let photos = read_list::<Photo>(value, "photos")?;
        let phone_numbers = read_values(value, "phoneNumbers")?;
        let addresses = read_values(value, "addresses")?;
        let emails = read_list::<Email>(value, "emails")?;
        let verifications = read_list::<Verification>(value, "verifications")?;
        let provider = read_text(value, "provider")?;
        let created_at = read_text(value, "createdAt")?;
        let updated_at = read_text(value, "updatedAt")?;
        let environment_id = read_text(value, "environmentId")?;
        Some(
            User {
                id,
                external_id,
                user_name,
                display_name,
                nick_name,
                profile_url,
                title,
                user_type,
                preferred_language,
                locale,
                timezone,
                active,
                names,
                photos,
                phone_numbers,
                addresses,
                emails,
                verifications,
                provider,
                created_at,
                updated_at,
                environment_id,
            },
        )
    }
}

/// The optional members of a user are absent exactly where the document
/// leaves them out or gives `null` for them.
pub proof fn lemma_optional_members_of_user(j: Json)
    requires
        User::decode(j) is Some,
    ensures
        User::decode(j)->0.nick_name is None <==> absent(j, "nickName"@),
        User::decode(j)->0.profile_url is None <==> absent(j, "profileUrl"@),
        User::decode(j)->0.title is None <==> absent(j, "title"@),
        User::decode(j)->0.user_type is None <==> absent(j, "userType"@),
        User::decode(j)->0.preferred_language is None <==> absent(j, "preferredLanguage"@),
        User::decode(j)->0.timezone is None <==> absent(j, "timezone"@),
{
}

/// The optional parts of a name are absent exactly where the document leaves
/// them out or gives `null` for them.
pub proof fn lemma_optional_members_of_names(j: Json)
    requires
        Names::decode(j) is Some,
    ensures
        Names::decode(j)->0.formatted is None <==> absent(j, "formatted"@),
        Names::decode(j)->0.middle_name is None <==> absent(j, "middleName"@),
        Names::decode(j)->0.honorific_prefix is None <==> absent(j, "honorificPrefix"@),
        Names::decode(j)->0.honorific_suffix is None <==> absent(j, "honorificSuffix"@),
{
}

/// The type of an email address is absent exactly where the document leaves
/// it out or gives `null` for it.
pub proof fn lemma_optional_member_of_email(j: Json)
    requires
        Email::decode(j) is Some,
    ensures
        Email::decode(j)->0.email_type is None <==> absent(j, "type"@),
{
}

impl FromJson for UserInfoResponse {
    open spec fn decode(j: Json) -> Option<UserInfoResponseView> {
        if object_field::<Meta>(j, "meta"@) is Some && object_field::<Session>(j, "session"@) is Some
            && object_field::<User>(j, "user"@) is Some {
            Some(
                UserInfoResponseView {
                    meta: object_field::<Meta>(j, "meta"@)->0,
                    session: object_field::<Session>(j, "session"@)->0,
                    user: object_field::<User>(j, "user"@)->0,
                },
            )
        } else {
            None
        }
    }

    fn from_value(value: &serde_json::Value) -> (r: Option<Self>) {
        let meta = read_object::<Meta>(value, "meta")?;
        let session = read_object::<Session>(value, "session")?;
        let user = read_object::<User>(value, "user")?;
        Some(UserInfoResponse { meta, session, user })
    }
}

impl FromJson for ErrorResponse {
    open spec fn decode(j: Json) -> Option<ErrorResponseView> {
        if text_field(j, "error"@) is Some {
            Some(ErrorResponseView { error: text_field(j, "error"@)->0 })
        } else {
            None
        }
    }

    fn from_value(value: &serde_json::Value) -> (r: Option<Self>) {
        let error = read_text(value, "error")?;
        Some(ErrorResponse { error })
    }
}

} // verus!
