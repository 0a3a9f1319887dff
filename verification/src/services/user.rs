//! Accounts: registration, login, and the changes that an account's owner
//! may make to it.

use vstd::prelude::*;
use vstd::string::*;
use crate::db::{
    answer_view, rows_view, unique_violation, Database, DatabaseView, StoreFailure,
    StoreFailureView,
};
use crate::error::{result_view, unit_result_view, AppError, AppErrorView, NotFoundKind};
use crate::db::users::lemma_update_password;
use crate::hasher::{
    check, hash_with_salt, hashed, is_hashable, is_salt_for, is_salt_text, new_salt,
    password_check, verifies, PasswordCheck,
};
use crate::modules::user::{
    CreateDto, CreateDtoView, DeleteDto, DeleteDtoView, LoginDto, LoginDtoView,
    UpdateInformationDto, UpdateInformationDtoView, UpdatePasswordDto, UpdatePasswordDtoView, User,
    UserView,
};
use crate::text::{opt_text, opt_view};

verus! {

/// The rejection of a request that asks for no change.
pub open spec fn bad_request() -> AppErrorView {
    AppErrorView::ValidationError("Bad Request!"@)
}

/// Makes the rejection of a request that asks for no change.
pub fn bad_request_error() -> (e: AppError)
    ensures
        e@ == bad_request(),
{
    AppError::ValidationError(String::from_str("Bad Request!"))
}

/// What writing an account answers once the store has answered: the
/// account, "already exists" where the store reports a uniqueness
/// violation, and an internal error for every other failure.
pub open spec fn account_written(answer: Result<UserView, StoreFailureView>) -> Result<
    UserView,
    AppErrorView,
> {
    match answer {
        Ok(user) => Ok(user),
        Err(failure) => if failure == unique_violation() {
            Err(AppErrorView::AlreadyExists)
        } else {
            Err(AppErrorView::InternalServer)
        },
    }
}

/// What a login answers for an account that was found, given what checking
/// the password against its digest found.
pub open spec fn granted(user: UserView, found: PasswordCheck) -> Result<UserView, AppErrorView> {
    match found {
        PasswordCheck::Match => Ok(user),
        PasswordCheck::Mismatch => Err(AppErrorView::Unauthorized),
        PasswordCheck::Malformed => Err(AppErrorView::InternalServer),
    }
}

/// What a login with `password` answers once the store has answered the
/// query for the account: an unknown username and a wrong password are both
/// unauthorized.
pub open spec fn logged_in(
    answer: Result<UserView, StoreFailureView>,
    password: Seq<char>,
) -> Result<UserView, AppErrorView> {
    match answer {
        Ok(user) => granted(user, password_check(password, user.password)),
        Err(StoreFailureView::RowNotFound) => Err(AppErrorView::Unauthorized),
        Err(_) => Err(AppErrorView::InternalServer),
    }
}

/// What a change of password answers once the store has answered the
/// write.
pub open spec fn password_written(written: Result<u64, StoreFailureView>) -> Result<
    (),
    AppErrorView,
> {
    match written {
        Ok(rows) => if rows > 0 {
            Ok(())
        } else {
            Err(AppErrorView::NotFound(NotFoundKind::User))
        },
        Err(_) => Err(AppErrorView::InternalServer),
    }
}

/// What closing an account answers once the store has answered the write.
pub open spec fn account_closed(written: Result<u64, StoreFailureView>) -> Result<
    (),
    AppErrorView,
> {
    match written {
        Ok(_) => Ok(()),
        Err(_) => Err(AppErrorView::InternalServer),
    }
}

/// The value of a field after a request: the new one where the request
/// holds one, the current one where it does not.
pub open spec fn merged(new: Option<Seq<char>>, current: Seq<char>) -> Seq<char> {
    match new {
        Some(text) => text,
        None => current,
    }
}

/// Whether a request changes nothing of the account that makes it.
pub open spec fn changes_nothing(dto: UpdateInformationDtoView, user: UserView) -> bool {
    &&& merged(dto.name, user.name) == user.name
    &&& merged(dto.email, user.email) == user.email
    &&& merged(dto.username, user.username) == user.username
}

/// The three fields of an account that its owner may change, as they are
/// to be written.
#[derive(Debug, PartialEq, Eq)]
pub struct InformationChange {
    pub email: String,
    pub name: String,
    pub username: String,
}

/// An [`InformationChange`] over sequences of characters.
pub struct InformationChangeView {
    pub email: Seq<char>,
    pub name: Seq<char>,
    pub username: Seq<char>,
}

impl View for InformationChange {
    type V = InformationChangeView;

    open spec fn view(&self) -> InformationChangeView {
        InformationChangeView { email: self.email@, name: self.name@, username: self.username@ }
    }
}

/// What is to be written for a request to change the information of
/// `user`: the fields of the request over the current ones, or the
/// rejection of a request that changes nothing.
pub open spec fn planned_change(dto: UpdateInformationDtoView, user: UserView) -> Result<
    InformationChangeView,
    AppErrorView,
> {
    if changes_nothing(dto, user) {
        Err(bad_request())
    } else {
        Ok(
            InformationChangeView {
                email: merged(dto.email, user.email),
                name: merged(dto.name, user.name),
                username: merged(dto.username, user.username),
            },
        )
    }
}

/// An account as it is to be inserted: the fields of the request, with the
/// digest in place of the password, and the salt of the digest.
#[derive(Debug, PartialEq, Eq)]
pub struct NewAccount {
    pub name: String,
    pub email: String,
    pub username: String,
    pub password: String,
    pub salt: String,
}

/// A [`NewAccount`] over sequences of characters.
pub struct NewAccountView {
    pub name: Seq<char>,
    pub email: Seq<char>,
    pub username: Seq<char>,
    pub password: Seq<char>,
    pub salt: Seq<char>,
}

impl View for NewAccount {
    type V = NewAccountView;

    open spec fn view(&self) -> NewAccountView {
        NewAccountView {
            name: self.name@,
            email: self.email@,
            username: self.username@,
            password: self.password@,
            salt: self.salt@,
        }
    }
}

/// A digest as it is to be stored, with its salt.
#[derive(Debug, PartialEq, Eq)]
pub struct NewPassword {
    pub password: String,
    pub salt: String,
}

/// A [`NewPassword`] over sequences of characters.
pub struct NewPasswordView {
    pub password: Seq<char>,
    pub salt: Seq<char>,
}

impl View for NewPassword {
    type V = NewPasswordView;

    open spec fn view(&self) -> NewPasswordView {
        NewPasswordView { password: self.password@, salt: self.salt@ }
    }
}

/// What is inserted for a registration whose password is hashed with
/// `salt`, or the internal error where the hasher refuses.
pub open spec fn planned_account(dto: CreateDtoView, salt: Seq<char>) -> Result<
    NewAccountView,
    AppErrorView,
> {
    match hashed(dto.password, salt) {
        Err(e) => Err(e),
        Ok(pair) => Ok(
            NewAccountView {
                name: dto.name,
                email: dto.email,
                username: dto.username,
                password: pair.0,
                salt: pair.1,
            },
        ),
    }
}

/// What is stored for a change of password of `user`, the new password
/// being hashed with `salt`: the old password is checked first, and the new
/// one is hashed only where the old one matches.
pub open spec fn planned_password(
    dto: UpdatePasswordDtoView,
    user: UserView,
    salt: Seq<char>,
) -> Result<NewPasswordView, AppErrorView> {
    match gate(password_check(dto.old_password, user.password)) {
        Some(e) => Err(e),
        None => match hashed(dto.password, salt) {
            Err(e) => Err(e),
            Ok(pair) => Ok(NewPasswordView { password: pair.0, salt: pair.1 }),
        },
    }
}

/// Whether `salt` may have been generated for this change of password: it
/// has the shape of a generated salt, and where the old password matches,
/// so that the new one is hashed, the hasher derives a digest with it,
/// unless the new password is too long.
pub open spec fn is_salt_for_change(
    salt: Seq<char>,
    dto: UpdatePasswordDtoView,
    user: UserView,
) -> bool {
    &&& is_salt_text(salt)
    &&& gate(password_check(dto.old_password, user.password)) is None ==> is_salt_for(
        salt,
        dto.password,
    )
}

/// Whether `user` may close its account with this request: the password is
/// checked against the digest.
pub open spec fn may_close(dto: DeleteDtoView, user: UserView) -> Result<(), AppErrorView> {
    match gate(password_check(dto.password, user.password)) {
        Some(e) => Err(e),
        None => Ok(()),
    }
}

/// What a password-gated operation answers before it touches the store:
/// nothing yet where the password matches, and the rejection otherwise.
pub open spec fn gate(found: PasswordCheck) -> Option<AppErrorView> {
    match found {
        PasswordCheck::Match => None,
        PasswordCheck::Mismatch => Some(AppErrorView::Unauthorized),
        PasswordCheck::Malformed => Some(AppErrorView::InternalServer),
    }
}

impl DatabaseView {
    /// The store and the answer after a registration whose password is
    /// hashed with `salt`.
    pub open spec fn register(self, dto: CreateDtoView, salt: Seq<char>, now: u64) -> (
        DatabaseView,
        Result<UserView, AppErrorView>,
    ) {
        match planned_account(dto, salt) {
            Err(e) => (self, Err(e)),
            Ok(account) => {
                let after = self.users.insert(
                    account.name,
                    account.email,
                    account.username,
                    account.password,
                    account.salt,
                    now,
                );
                (DatabaseView { users: after.0, ..self }, account_written(after.1))
            },
        }
    }

    /// The answer to a login.
    pub open spec fn login(self, dto: LoginDtoView) -> Result<UserView, AppErrorView> {
        logged_in(self.users.active_by_username(dto.username), dto.password)
    }

    /// The store and the answer after `user` asked to change its
    /// information. A request that changes nothing is rejected and nothing
    /// is written.
    pub open spec fn update_information(
        self,
        dto: UpdateInformationDtoView,
        user: UserView,
        now: u64,
    ) -> (DatabaseView, Result<UserView, AppErrorView>) {
        match planned_change(dto, user) {
            Err(e) => (self, Err(e)),
            Ok(change) => {
                let after = self.users.update_information(
                    user.id,
                    change.email,
                    change.name,
                    change.username,
                    now,
                );
                (DatabaseView { users: after.0, ..self }, account_written(after.1))
            },
        }
    }

    /// The store and the answer after `user` asked to change its
    /// password, the new one being hashed with `salt`.
    pub open spec fn update_password(
        self,
        dto: UpdatePasswordDtoView,
        user: UserView,
        salt: Seq<char>,
        now: u64,
    ) -> (DatabaseView, Result<(), AppErrorView>) {
        match planned_password(dto, user, salt) {
            Err(e) => (self, Err(e)),
            Ok(new) => {
                let after = self.users.update_password(user.id, new.password, new.salt, now);
                (DatabaseView { users: after.0, ..self }, password_written(Ok(after.1)))
            },
        }
    }

    /// The store and the answer after `user` asked to close its account:
    /// the account stays in the store and is no longer active.
    pub open spec fn close(self, dto: DeleteDtoView, user: UserView, now: u64) -> (
        DatabaseView,
        Result<(), AppErrorView>,
    ) {
        match may_close(dto, user) {
            Err(e) => (self, Err(e)),
            Ok(()) => {
                let after = self.users.deactivate(user.id, now);
                (DatabaseView { users: after.0, ..self }, account_closed(Ok(after.1)))
            },
        }
    }
}

/// Decides what writing an account answers from the store's answer.
pub fn user_written(answer: Result<User, StoreFailure>) -> (outcome: Result<User, AppError>)
    ensures
        result_view(outcome) == account_written(answer_view(answer)),
{
    match answer {
        Ok(user) => Ok(user),
        Err(StoreFailure::Database(Some(code))) => {
            if code == String::from_str("23505") {
                Err(AppError::AlreadyExists)
            } else {
                Err(AppError::InternalServer)
            }
        },
        Err(_) => Err(AppError::InternalServer),
    }
}

/// Decides what a login answers for the account that was found from what
/// checking the password found.
pub fn grant(user: User, found: PasswordCheck) -> (outcome: Result<User, AppError>)
    ensures
        result_view(outcome) == granted(user@, found),
{
    match found {
        PasswordCheck::Match => Ok(user),
        PasswordCheck::Mismatch => Err(AppError::Unauthorized),
        PasswordCheck::Malformed => Err(AppError::InternalServer),
    }
}

/// Decides what a login with `password` answers from the store's answer to
/// the query for the account.
pub fn user_found(answer: Result<User, StoreFailure>, password: &str) -> (outcome: Result<
    User,
    AppError,
>)
    ensures
        result_view(outcome) == logged_in(answer_view(answer), password@),
{
    match answer {
        Ok(user) => {
            let found = check(password, user.password.as_str());
            grant(user, found)
        },
        Err(StoreFailure::RowNotFound) => Err(AppError::Unauthorized),
        Err(_) => Err(AppError::InternalServer),
    }
}

/// Decides whether a password-gated operation may go on from what checking
/// the password found.
pub fn pass_gate(found: PasswordCheck) -> (rejection: Option<AppError>)
    ensures
        opt_view(rejection) == gate(found),
{
    match found {
        PasswordCheck::Match => None,
        PasswordCheck::Mismatch => Some(AppError::Unauthorized),
        PasswordCheck::Malformed => Some(AppError::InternalServer),
    }
}

/// Decides what a change of password answers from the store's answer to the write.
pub fn password_stored(written: Result<u64, StoreFailure>) -> (outcome: Result<(), AppError>)
    ensures
        unit_result_view(outcome) == password_written(rows_view(written)),
{
    match written {
        Ok(rows) => {
            if rows > 0 {
                Ok(())
            } else {
                Err(AppError::NotFound(NotFoundKind::User))
            }
        },
        Err(_) => Err(AppError::InternalServer),
    }
}

/// Decides what closing an account answers from the store's answer to the write.
pub fn user_closed(written: Result<u64, StoreFailure>) -> (outcome: Result<(), AppError>)
    ensures
        unit_result_view(outcome) == account_closed(rows_view(written)),
{
    match written {
        Ok(_) => Ok(()),
        Err(_) => Err(AppError::InternalServer),
    }
}

/// Merges a field of a request over its current value.
pub fn merge(new: Option<String>, current: &String) -> (text: String)
    ensures
        text@ == merged(opt_text(new), current@),
{
    match new {
        Some(text) => text,
        None => current.clone(),
    }
}

/// Merges a request to change the information of `user` over the current
/// values and rejects the request that changes nothing.
pub fn information_change(update_info_dto: UpdateInformationDto, user: &User) -> (change: Result<
    InformationChange,
    AppError,
>)
    ensures
        result_view(change) == planned_change(update_info_dto@, user@),
{
    let email = merge(update_info_dto.email, &user.email);
    let name = merge(update_info_dto.name, &user.name);
    let username = merge(update_info_dto.username, &user.username);
    if name == user.name && email == user.email && username == user.username {
        return Err(bad_request_error());
    }
    Ok(InformationChange { email, name, username })
}

/// Prepares the account of a registration whose password is hashed with `salt`.
pub fn new_account_with_salt(create_dto: CreateDto, salt: String) -> (account: Result<
    NewAccount,
    AppError,
>)
    ensures
        result_view(account) == planned_account(create_dto@, salt@),
        account matches Ok(prepared) ==> verifies(create_dto@.password, prepared@.password),
        is_salt_text(salt@) ==> is_salt_for(salt@, create_dto@.password),
{
    match hash_with_salt(create_dto.password.as_str(), salt) {
        Err(e) => Err(e),
        Ok(pair) => Ok(
            NewAccount {
                name: create_dto.name,
                email: create_dto.email,
                username: create_dto.username,
                password: pair.0,
                salt: pair.1,
            },
        ),
    }
}

/// Prepares the account of a registration: hashes the password with a salt
/// that is generated for this call.
pub fn new_account(create_dto: CreateDto) -> (account: Result<NewAccount, AppError>)
    ensures
        exists|salt: Seq<char>|
            is_salt_for(salt, create_dto@.password) && result_view(account)
                == #[trigger] planned_account(create_dto@, salt),
        account matches Ok(prepared) ==> verifies(create_dto@.password, prepared@.password),
        is_hashable(create_dto@.password) ==> account is Ok,
{
    let salt = new_salt();
    let ghost witness = salt@;
    let account = new_account_with_salt(create_dto, salt);
    assert(result_view(account) == planned_account(create_dto@, witness));
    account
}

/// Prepares the change of the password of `user`, the new password being
/// hashed with `salt`.
pub fn new_password_with_salt(
    update_pass_dto: UpdatePasswordDto,
    user: &User,
    salt: String,
) -> (new: Result<NewPassword, AppError>)
    ensures
        result_view(new) == planned_password(update_pass_dto@, user@, salt@),
        new matches Ok(prepared) ==> verifies(update_pass_dto@.password, prepared@.password),
        is_salt_text(salt@) ==> is_salt_for_change(salt@, update_pass_dto@, user@),
{
    match pass_gate(check(update_pass_dto.old_password.as_str(), user.password.as_str())) {
        Some(e) => Err(e),
        None => match hash_with_salt(update_pass_dto.password.as_str(), salt) {
            Err(e) => Err(e),
            Ok(pair) => Ok(NewPassword { password: pair.0, salt: pair.1 }),
        },
    }
}

/// Prepares the change of the password of `user`: checks the old password
/// against the digest first, then hashes the new one with a salt that is
/// generated for this call.
pub fn new_password(update_pass_dto: UpdatePasswordDto, user: &User) -> (new: Result<
    NewPassword,
    AppError,
>)
    ensures
        exists|salt: Seq<char>|
            is_salt_for_change(salt, update_pass_dto@, user@) && result_view(new)
                == #[trigger] planned_password(update_pass_dto@, user@, salt),
        new matches Ok(prepared) ==> verifies(update_pass_dto@.password, prepared@.password),
{
    let salt = new_salt();
    let ghost witness = salt@;
    let new = new_password_with_salt(update_pass_dto, user, salt);
    assert(result_view(new) == planned_password(update_pass_dto@, user@, witness));
    new
}

/// Checks the password of a request to close the account of `user`.
pub fn closing_allowed(delete_dto: &DeleteDto, user: &User) -> (allowed: Result<(), AppError>)
    ensures
        unit_result_view(allowed) == may_close(delete_dto@, user@),
{
    match pass_gate(check(delete_dto.password.as_str(), user.password.as_str())) {
        Some(e) => Err(e),
        None => Ok(()),
    }
}

/// Registers an account whose password is hashed with `salt`.
pub fn create_with_salt(
    create_dto: CreateDto,
    salt: String,
    db: &mut Database,
    now: u64,
) -> (outcome: Result<User, AppError>)
    requires
        old(db).wf(),
    ensures
        final(db).wf(),
        (final(db)@, result_view(outcome)) == old(db)@.register(create_dto@, salt@, now),
        outcome matches Ok(user) ==> verifies(create_dto@.password, user@.password),
        is_salt_text(salt@) ==> is_salt_for(salt@, create_dto@.password),
{
    match new_account_with_salt(create_dto, salt) {
        Err(e) => Err(e),
        Ok(account) => {
            let answer = db.users.insert(
                account.name,
                account.email,
                account.username,
                account.password,
                account.salt,
                now,
            );
            user_written(answer)
        },
    }
}

/// Registers an account: hashes the password with a salt generated for this
/// call and inserts the account. A username or an email address that is
/// taken makes the registration fail with "already exists".
pub fn create(create_dto: CreateDto, db: &mut Database, now: u64) -> (outcome: Result<
    User,
    AppError,
>)
    requires
        old(db).wf(),
    ensures
        final(db).wf(),
        exists|salt: Seq<char>|
            is_salt_for(salt, create_dto@.password) && (final(db)@, result_view(outcome))
                == #[trigger] old(db)@.register(create_dto@, salt, now),
        outcome matches Ok(user) ==> verifies(create_dto@.password, user@.password),
        is_hashable(create_dto@.password) && old(db)@.users.taken(
            create_dto@.username,
            create_dto@.email,
        ) ==> result_view(outcome) == Err::<UserView, AppErrorView>(AppErrorView::AlreadyExists)
            && final(db)@ == old(db)@,
        is_hashable(create_dto@.password) && !old(db)@.users.taken(
            create_dto@.username,
            create_dto@.email,
        ) && old(db)@.users.next_id <= i32::MAX ==> outcome is Ok,
{
    let salt = new_salt();
    let ghost witness = salt@;
    let outcome = create_with_salt(create_dto, salt, db, now);
    assert((db@, result_view(outcome)) == old(db)@.register(create_dto@, witness, now));
    outcome
}

/// Logs a user in: looks the active account up by its username and checks
/// the password against its digest.
pub fn login(login_dto: LoginDto, db: &Database) -> (outcome: Result<User, AppError>)
    requires
        db.wf(),
    ensures
        result_view(outcome) == db@.login(login_dto@),
{
    let answer = db.users.active_by_username(&login_dto.username);
    user_found(answer, login_dto.password.as_str())
}

/// Changes the name, the username or the email address of `user`. Only
/// the fields that the request holds change; a request that changes nothing
/// is rejected and nothing is written.
pub fn update_information(
    update_info_dto: UpdateInformationDto,
    user: User,
    db: &mut Database,
    now: u64,
) -> (outcome: Result<User, AppError>)
    requires
        old(db).wf(),
    ensures
        final(db).wf(),
        (final(db)@, result_view(outcome)) == old(db)@.update_information(
            update_info_dto@,
            user@,
            now,
        ),
{
    match information_change(update_info_dto, &user) {
        Err(e) => Err(e),
        Ok(change) => {
            let answer = db.users.update_information(
                user.id,
                change.email,
                change.name,
                change.username,
                now,
            );
            user_written(answer)
        },
    }
}

/// Changes the password of `user`, the new one being hashed with `salt`.
pub fn update_password_with_salt(
    update_pass_dto: UpdatePasswordDto,
    user: User,
    salt: String,
    db: &mut Database,
    now: u64,
) -> (outcome: Result<(), AppError>)
    requires
        old(db).wf(),
    ensures
        final(db).wf(),
        (final(db)@, unit_result_view(outcome)) == old(db)@.update_password(
            update_pass_dto@,
            user@,
            salt@,
            now,
        ),
        is_salt_text(salt@) ==> is_salt_for_change(salt@, update_pass_dto@, user@),
        outcome is Ok ==> (final(db)@.users.index_of(user.id) matches Some(i) && verifies(
            update_pass_dto@.password,
            final(db)@.users.rows[i].user.password,
        )),
{
    match new_password_with_salt(update_pass_dto, &user, salt) {
        Err(e) => Err(e),
        Ok(new) => {
            proof {
                lemma_update_password(db@.users, user.id, new.password@, new.salt@, now);
            }
            let written = db.users.update_password(user.id, new.password, new.salt, now);
            password_stored(written)
        },
    }
}

/// Changes the password of `user`: checks the old password against the
/// digest first, then hashes the new one with a salt generated for this
/// call and stores it.
pub fn update_password(
    update_pass_dto: UpdatePasswordDto,
    user: User,
    db: &mut Database,
    now: u64,
) -> (outcome: Result<(), AppError>)
    requires
        old(db).wf(),
    ensures
        final(db).wf(),
        exists|salt: Seq<char>|
            is_salt_for_change(salt, update_pass_dto@, user@) && (
                final(db)@,
                unit_result_view(outcome),
            ) == #[trigger] old(db)@.update_password(update_pass_dto@, user@, salt, now),
        outcome is Ok ==> (final(db)@.users.index_of(user.id) matches Some(i) && verifies(
            update_pass_dto@.password,
            final(db)@.users.rows[i].user.password,
        )),
{
    let salt = new_salt();
    let ghost witness = salt@;
    let outcome = update_password_with_salt(update_pass_dto, user, salt, db, now);
    assert((db@, unit_result_view(outcome)) == old(db)@.update_password(
        update_pass_dto@,
        user@,
        witness,
        now,
    ));
    outcome
}

/// Closes the account of `user` after checking the password against the
/// digest: the account is kept and marked inactive.
pub fn delete(delete_dto: DeleteDto, user: User, db: &mut Database, now: u64) -> (outcome: Result<
    (),
    AppError,
>)
    requires
        old(db).wf(),
    ensures
        final(db).wf(),
        (final(db)@, unit_result_view(outcome)) == old(db)@.close(delete_dto@, user@, now),
{
    match closing_allowed(&delete_dto, &user) {
        Err(e) => Err(e),
        Ok(()) => {
            let written = db.users.deactivate(user.id, now);
            user_closed(written)
        },
    }
}

} // verus!
