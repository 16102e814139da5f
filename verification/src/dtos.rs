//! The data contracts: what a client may send, the rules that make each
//! request well-formed, and what the server returns — including the
//! projection from the persisted user record to its public-safe shape.
use vstd::prelude::*;
use vstd::slice::slice_index_get;

use crate::models::{role_token, User, UserRole};
use crate::validation::{
    email_syntax_rule, is_email, min_len_rule, must_match_rule, push_email_syntax, push_min_len,
    push_must_match, push_range, range_rule, views_of, Violation,
};

verus! {

/// Login request: an email and a password.
#[derive(Debug, Default, Clone)]
pub struct LoginUserDTO {
    pub email: String,
    pub password: String,
}

/// The rule list of the login contract, in declaration order.
pub open spec fn login_violations(email: Seq<char>, password: Seq<char>) -> Seq<
    (Seq<char>, Seq<char>),
> {
    min_len_rule("email"@, email, 6, "Email must be at least 6 characters long"@)
        + email_syntax_rule("email"@, email, "Email must be a valid email address"@)
        + min_len_rule("password"@, password, 1, "Password must be at least 1 character long"@)
        + min_len_rule("password"@, password, 6, "Password must be at least 6 characters long"@)
}

impl LoginUserDTO {
    /// Evaluates every rule of this contract and returns the violations in
    /// rule order; an empty result means the request is well-formed.
    pub fn validate(&self) -> (r: Vec<Violation>)
        ensures
            views_of(r@) == login_violations(self.email@, self.password@),
            r@.len() == 0 <==> self.email@.len() >= 6 && is_email(self.email@)
                && self.password@.len() >= 6,
    {
        let mut vs: Vec<Violation> = Vec::new();
        push_min_len(&mut vs, self.email.as_str(), 6, "email",
            "Email must be at least 6 characters long");
        push_email_syntax(&mut vs, self.email.as_str(), "email",
            "Email must be a valid email address");
        push_min_len(&mut vs, self.password.as_str(), 1, "password",
            "Password must be at least 1 character long");
        push_min_len(&mut vs, self.password.as_str(), 6, "password",
            "Password must be at least 6 characters long");
        proof {
            assert(views_of(vs@) =~= login_violations(self.email@, self.password@));
        }
        vs
    }
}

/// Registration request: a display name, an email, a password and its
/// confirmation.
#[derive(Debug, Default, Clone)]
pub struct RegisterUserDTO {
    pub name: String,
    pub email: String,
    pub password: String,
    pub password_confirm: String,
}

/// The rule list of the registration contract, in declaration order.
pub open spec fn register_violations(
    name: Seq<char>,
    email: Seq<char>,
    password: Seq<char>,
    password_confirm: Seq<char>,
) -> Seq<(Seq<char>, Seq<char>)> {
    min_len_rule("name"@, name, 3, "Name must be at least 3 characters long"@)
        + min_len_rule("email"@, email, 6, "Email must be at least 6 characters long"@)
        + email_syntax_rule("email"@, email, "Email must be a valid email address"@)
        + min_len_rule("password"@, password, 1, "Password must be at least 1 character long"@)
        + min_len_rule("password"@, password, 6, "Password must be at least 6 characters long"@)
        + min_len_rule("password_confirm"@, password_confirm, 1,
            "Password confirmation is required"@)
        + must_match_rule("password_confirm"@, password_confirm, password,
            "Passwords do not match"@)
}

impl RegisterUserDTO {
    /// Evaluates every rule of this contract and returns the violations in
    /// rule order; an empty result means the request is well-formed.
    pub fn validate(&self) -> (r: Vec<Violation>)
        ensures
            views_of(r@) == register_violations(
                self.name@,
                self.email@,
                self.password@,
                self.password_confirm@,
            ),
            r@.len() == 0 <==> self.name@.len() >= 3 && self.email@.len() >= 6 && is_email(
                self.email@,
            ) && self.password@.len() >= 6 && self.password_confirm@.len() >= 1
                && self.password_confirm@ == self.password@,
    {
        let mut vs: Vec<Violation> = Vec::new();
        push_min_len(&mut vs, self.name.as_str(), 3, "name",
            "Name must be at least 3 characters long");
        push_min_len(&mut vs, self.email.as_str(), 6, "email",
            "Email must be at least 6 characters long");
        push_email_syntax(&mut vs, self.email.as_str(), "email",
            "Email must be a valid email address");
        push_min_len(&mut vs, self.password.as_str(), 1, "password",
            "Password must be at least 1 character long");
        push_min_len(&mut vs, self.password.as_str(), 6, "password",
            "Password must be at least 6 characters long");
        push_min_len(&mut vs, self.password_confirm.as_str(), 1, "password_confirm",
            "Password confirmation is required");
        push_must_match(&mut vs, self.password_confirm.as_str(), self.password.as_str(),
            "password_confirm", "Passwords do not match");
        proof {
            assert(views_of(vs@) =~= register_violations(
                self.name@,
                self.email@,
                self.password@,
                self.password_confirm@,
            ));
        }
        vs
    }
}

/// A registration whose password and confirmation differ always carries a
/// violation tagged to the confirmation field, whatever the other fields
/// hold.
pub proof fn lemma_register_mismatch_flags_confirmation(
    name: Seq<char>,
    email: Seq<char>,
    password: Seq<char>,
    password_confirm: Seq<char>,
)
    requires
        password_confirm != password,
    ensures
        register_violations(name, email, password, password_confirm).contains(
            ("password_confirm"@, "Passwords do not match"@),
        ),
{
    let vs = register_violations(name, email, password, password_confirm);
    assert(vs[vs.len() - 1] == ("password_confirm"@, "Passwords do not match"@));
}

/// Pagination query: both numbers optional; absence means "use default".
#[derive(Debug, Clone)]
pub struct RequestQueryDTO {
    pub page: Option<usize>,
    pub limit: Option<usize>,
}

/// The rule list of the pagination contract. The limit rule carries no
/// bespoke message; its rule code stands in its place.
pub open spec fn query_violations(page: Option<usize>, limit: Option<usize>) -> Seq<
    (Seq<char>, Seq<char>),
> {
    range_rule("page"@, page, 1, usize::MAX, "Page must be at least 1"@)
        + range_rule("limit"@, limit, 1, 50, "range"@)
}

impl RequestQueryDTO {
    /// Evaluates every rule of this contract and returns the violations in
    /// rule order; an empty result means the request is well-formed.
    pub fn validate(&self) -> (r: Vec<Violation>)
        ensures
            views_of(r@) == query_violations(self.page, self.limit),
            r@.len() == 0 <==> (self.page is Some ==> self.page->0 >= 1) && (self.limit is Some
                ==> 1 <= self.limit->0 <= 50),
    {
        let mut vs: Vec<Violation> = Vec::new();
        push_range(&mut vs, &self.page, 1, usize::MAX, "page", "Page must be at least 1");
        push_range(&mut vs, &self.limit, 1, 50, "limit", "range");
        proof {
            assert(views_of(vs@) =~= query_violations(self.page, self.limit));
        }
        vs
    }
}

/// Profile update request: a new display name.
#[derive(Debug, Default, Clone)]
pub struct NewUpdateDTO {
    pub name: String,
}

/// The rule list of the profile-update contract.
pub open spec fn name_update_violations(name: Seq<char>) -> Seq<(Seq<char>, Seq<char>)> {
    min_len_rule("name"@, name, 1, "Name is required"@)
}

impl NewUpdateDTO {
    /// Evaluates every rule of this contract and returns the violations in
    /// rule order; an empty result means the request is well-formed.
    pub fn validate(&self) -> (r: Vec<Violation>)
        ensures
            views_of(r@) == name_update_violations(self.name@),
            r@.len() == 0 <==> self.name@.len() >= 1,
    {
        let mut vs: Vec<Violation> = Vec::new();
        push_min_len(&mut vs, self.name.as_str(), 1, "name", "Name is required");
        proof {
            assert(views_of(vs@) =~= name_update_violations(self.name@));
        }
        vs
    }
}

/// Role change request. The role arrives as its wire tag so that a tag
/// outside the closed domain is a structured validation failure, not a
/// parse failure.
#[derive(Debug, Clone)]
pub struct RoleUpdateDto {
    pub role: String,
}

/// The rule list of the role-change contract: the tag must name a member of
/// the closed role domain.
pub open spec fn role_violations(role: Seq<char>) -> Seq<(Seq<char>, Seq<char>)> {
    if role != "user"@ && role != "admin"@ {
        seq![("role"@, "Invalid user role"@)]
    } else {
        Seq::<(Seq<char>, Seq<char>)>::empty()
    }
}

impl RoleUpdateDto {
    /// Evaluates the role-domain rule; an empty result means the tag names
    /// a member of the role domain.
    pub fn validate(&self) -> (r: Vec<Violation>)
        ensures
            views_of(r@) == role_violations(self.role@),
            r@.len() == 0 <==> self.role@ == "user"@ || self.role@ == "admin"@,
    {
        let mut vs: Vec<Violation> = Vec::new();
        if UserRole::from_token(self.role.as_str()).is_none() {
            vs.push(Violation { field: "role", message: "Invalid user role" });
        }
        proof {
            assert(views_of(vs@) =~= role_violations(self.role@));
        }
        vs
    }

    /// The member of the role domain this request names, when it names one.
    pub fn resolve(&self) -> (r: Option<UserRole>)
        ensures
            r == Some(UserRole::User) <==> self.role@ == "user"@,
            r == Some(UserRole::Admin) <==> self.role@ == "admin"@,
            r is Some <==> role_violations(self.role@).len() == 0,
    {
        UserRole::from_token(self.role.as_str())
    }
}

/// A role tag outside the closed domain always fails validation.
pub proof fn lemma_unknown_role_rejected(role: Seq<char>)
    requires
        role != "user"@,
        role != "admin"@,
    ensures
        role_violations(role).len() == 1,
        role_violations(role)[0] == ("role"@, "Invalid user role"@),
{
}

/// Password change request: the current password, the new one, and its
/// confirmation.
#[derive(Debug, Default, Clone)]
pub struct UpdatePasswordUpdateDto {
    pub old_password: String,
    pub new_password: String,
    pub new_password_confirm: String,
}

/// The rule list of the password-change contract, in declaration order.
pub open spec fn password_update_violations(
    old_password: Seq<char>,
    new_password: Seq<char>,
    new_password_confirm: Seq<char>,
) -> Seq<(Seq<char>, Seq<char>)> {
    min_len_rule("old_password"@, old_password, 1, "Current password is required"@)
        + min_len_rule("new_password"@, new_password, 1, "New password is required"@)
        + min_len_rule("new_password"@, new_password, 6,
            "New password must be at least 6 characters long"@)
        + min_len_rule("new_password_confirm"@, new_password_confirm, 1,
            "Password confirmation is required"@)
        + must_match_rule("new_password_confirm"@, new_password_confirm, new_password,
            "Passwords do not match"@)
}

impl UpdatePasswordUpdateDto {
    /// Evaluates every rule of this contract and returns the violations in
    /// rule order; an empty result means the request is well-formed.
    pub fn validate(&self) -> (r: Vec<Violation>)
        ensures
            views_of(r@) == password_update_violations(
                self.old_password@,
                self.new_password@,
                self.new_password_confirm@,
            ),
            r@.len() == 0 <==> self.old_password@.len() >= 1 && self.new_password@.len() >= 6
                && self.new_password_confirm@.len() >= 1 && self.new_password_confirm@
                == self.new_password@,
    {
        let mut vs: Vec<Violation> = Vec::new();
        push_min_len(&mut vs, self.old_password.as_str(), 1, "old_password",
            "Current password is required");
        push_min_len(&mut vs, self.new_password.as_str(), 1, "new_password",
            "New password is required");
        push_min_len(&mut vs, self.new_password.as_str(), 6, "new_password",
            "New password must be at least 6 characters long");
        push_min_len(&mut vs, self.new_password_confirm.as_str(), 1, "new_password_confirm",
            "Password confirmation is required");
        push_must_match(&mut vs, self.new_password_confirm.as_str(), self.new_password.as_str(),
            "new_password_confirm", "Passwords do not match");
        proof {
            assert(views_of(vs@) =~= password_update_violations(
                self.old_password@,
                self.new_password@,
                self.new_password_confirm@,
            ));
        }
        vs
    }
}

/// Email verification request: the emailed token.
#[derive(Debug, Default, Clone)]
pub struct VerifyEmailQueryDto {
    pub token: String,
}

/// The rule list of the email-verification contract.
pub open spec fn verify_email_violations(token: Seq<char>) -> Seq<(Seq<char>, Seq<char>)> {
    min_len_rule("token"@, token, 1, "Token is required"@)
}

impl VerifyEmailQueryDto {
    /// Evaluates every rule of this contract and returns the violations in
    /// rule order; an empty result means the request is well-formed.
    pub fn validate(&self) -> (r: Vec<Violation>)
        ensures
            views_of(r@) == verify_email_violations(self.token@),
            r@.len() == 0 <==> self.token@.len() >= 1,
    {
        let mut vs: Vec<Violation> = Vec::new();
        push_min_len(&mut vs, self.token.as_str(), 1, "token", "Token is required");
        proof {
            assert(views_of(vs@) =~= verify_email_violations(self.token@));
        }
        vs
    }
}

/// Password reset initiation request: the account email.
#[derive(Debug, Default, Clone)]
pub struct ForgotPasswordRequestDTO {
    pub email: String,
}

/// The rule list of the reset-initiation contract.
pub open spec fn forgot_password_violations(email: Seq<char>) -> Seq<(Seq<char>, Seq<char>)> {
    min_len_rule("email"@, email, 6, "Email must be at least 6 characters long"@)
        + email_syntax_rule("email"@, email, "Email must be a valid email address"@)
}

impl ForgotPasswordRequestDTO {
    /// Evaluates every rule of this contract and returns the violations in
    /// rule order; an empty result means the request is well-formed.
    pub fn validate(&self) -> (r: Vec<Violation>)
        ensures
            views_of(r@) == forgot_password_violations(self.email@),
            r@.len() == 0 <==> self.email@.len() >= 6 && is_email(self.email@),
    {
        let mut vs: Vec<Violation> = Vec::new();
        push_min_len(&mut vs, self.email.as_str(), 6, "email",
            "Email must be at least 6 characters long");
        push_email_syntax(&mut vs, self.email.as_str(), "email",
            "Email must be a valid email address");
        proof {
            assert(views_of(vs@) =~= forgot_password_violations(self.email@));
        }
        vs
    }
}

/// Password reset completion request: the reset token, the new password and
/// its confirmation.
#[derive(Debug, Default, Clone)]
pub struct ResetPasswordRequestDTO {
    pub token: String,
    pub new_password: String,
    pub new_password_confirm: String,
}

/// The rule list of the reset-completion contract, in declaration order.
pub open spec fn reset_password_violations(
    token: Seq<char>,
    new_password: Seq<char>,
    new_password_confirm: Seq<char>,
) -> Seq<(Seq<char>, Seq<char>)> {
    min_len_rule("token"@, token, 1, "Token is required"@)
        + min_len_rule("new_password"@, new_password, 1, "New password is required"@)
        + min_len_rule("new_password"@, new_password, 6,
            "New password must be at least 6 characters long"@)
        + min_len_rule("new_password_confirm"@, new_password_confirm, 1,
            "Password confirmation is required"@)
        + must_match_rule("new_password_confirm"@, new_password_confirm, new_password,
            "Passwords do not match"@)
}

impl ResetPasswordRequestDTO {
    /// Evaluates every rule of this contract and returns the violations in
    /// rule order; an empty result means the request is well-formed.
    pub fn validate(&self) -> (r: Vec<Violation>)
        ensures
            views_of(r@) == reset_password_violations(
                self.token@,
                self.new_password@,
                self.new_password_confirm@,
            ),
            r@.len() == 0 <==> self.token@.len() >= 1 && self.new_password@.len() >= 6
                && self.new_password_confirm@.len() >= 1 && self.new_password_confirm@
                == self.new_password@,
    {
        let mut vs: Vec<Violation> = Vec::new();
        push_min_len(&mut vs, self.token.as_str(), 1, "token", "Token is required");
        push_min_len(&mut vs, self.new_password.as_str(), 1, "new_password",
            "New password is required");
        push_min_len(&mut vs, self.new_password.as_str(), 6, "new_password",
            "New password must be at least 6 characters long");
        push_min_len(&mut vs, self.new_password_confirm.as_str(), 1, "new_password_confirm",
            "Password confirmation is required");
        push_must_match(&mut vs, self.new_password_confirm.as_str(), self.new_password.as_str(),
            "new_password_confirm", "Passwords do not match");
        proof {
            assert(views_of(vs@) =~= reset_password_violations(
                self.token@,
                self.new_password@,
                self.new_password_confirm@,
            ));
        }
        vs
    }
}

/// The public-safe shape of a user: every field is allow-listed. The
/// password hash and the pending verification code have no field here and
/// can never appear.
#[derive(Debug, Clone)]
pub struct FilterUserDTO {
    pub id: String,
    pub name: String,
    pub email: String,
    pub role: String,
    pub verified: bool,
    pub created_at: i64,
    pub updated_at: i64,
}

/// What the projection reads of a user: the allow-listed fields and nothing
/// else. The password, the verification code and its expiry do not occur.
pub open spec fn user_projection(u: User) -> (
    Seq<char>,
    Seq<char>,
    Seq<char>,
    Seq<char>,
    bool,
    i64,
    i64,
) {
    (u.id@, u.name@, u.email@, role_token(u.role), u.verified, u.created_at, u.updated_at)
}

/// The field texts and values of a projected user.
pub open spec fn filter_view(d: FilterUserDTO) -> (
    Seq<char>,
    Seq<char>,
    Seq<char>,
    Seq<char>,
    bool,
    i64,
    i64,
) {
    (d.id@, d.name@, d.email@, d.role@, d.verified, d.created_at, d.updated_at)
}

impl FilterUserDTO {
    /// Projects a user record to its public-safe shape.
    pub fn filter_user(user: &User) -> (r: FilterUserDTO)
        ensures
            filter_view(r) == user_projection(*user),
    {
        FilterUserDTO {
            id: user.id.clone(),
            name: user.name.clone(),
            email: user.email.clone(),
            role: user.role.to_str().to_owned(),
            verified: user.verified,
            created_at: user.created_at,
            updated_at: user.updated_at,
        }
    }

    /// Projects a sequence of user records, order-preserving and
    /// one-to-one.
    pub fn filter_users(user: &[User]) -> (r: Vec<FilterUserDTO>)
        ensures
            r@.len() == user@.len(),
            forall|i: int|
                0 <= i < user@.len() ==> filter_view(#[trigger] r@[i]) == user_projection(
                    user@[i],
                ),
    {
        let n = user.len();
        let mut out: Vec<FilterUserDTO> = Vec::new();
        let mut i: usize = 0;
        while i < n
            invariant
                n == user@.len(),
                0 <= i <= n,
                out@.len() == i,
                forall|j: int|
                    0 <= j < i ==> filter_view(#[trigger] out@[j]) == user_projection(user@[j]),
            decreases n - i,
        {
            let u = slice_index_get(user, i);
            out.push(FilterUserDTO::filter_user(u));
            i = i + 1;
        }
        out
    }
}

/// Two users that agree on the allow-listed fields project identically,
/// however their password hashes, verification codes and code expiries
/// differ: the projection cannot carry a sensitive field.
pub proof fn lemma_projection_omits_secrets(u1: User, u2: User)
    requires
        u1.id@ == u2.id@,
        u1.name@ == u2.name@,
        u1.email@ == u2.email@,
        u1.role == u2.role,
        u1.verified == u2.verified,
        u1.created_at == u2.created_at,
        u1.updated_at == u2.updated_at,
    ensures
        user_projection(u1) == user_projection(u2),
{
}

/// Payload wrapper of a single-user response.
#[derive(Debug)]
pub struct UserData {
    pub user: FilterUserDTO,
}

/// Single-user response envelope.
#[derive(Debug)]
pub struct UserResponseDTO {
    pub status: String,
    pub data: UserData,
}

/// List-of-users response envelope, with the result count.
#[derive(Debug)]
pub struct UserListResponseDTO {
    pub status: String,
    pub users: Vec<FilterUserDTO>,
    pub results: i64,
}

/// Login response envelope, carrying the issued token.
#[derive(Debug)]
pub struct UserLoginResponseDTO {
    pub status: String,
    pub token: String,
}

/// Generic message response: a status discriminator plus a message.
pub struct Response {
    pub status: &'static str,
    pub message: String,
}

} // verus!
