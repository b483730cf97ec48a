//! A user service assembled from single-purpose parts: storage, email, logging,
//! validation, formatting, analytics and notifications, each behind its own trait.
use vstd::prelude::*;
use vstd::string::*;
use crate::users::{pair_views, User, UserFormatter, UserValidator};

verus! {

/// Where users are stored.
pub trait UserRepository {
    fn save(&self, user: &User) -> Result<bool, String>;

    fn update(&self, user: &User) -> Result<bool, String>;

    fn find_by_id(&self, user_id: &str) -> Result<Option<User>, String>;

    fn delete(&self, user: &User) -> Result<bool, String>;
}

/// Sending email to users.
pub trait EmailService {
    fn send_welcome_email(&self, email: &str) -> Result<bool, String>;

    fn send_password_reset_email(&self, email: &str) -> Result<bool, String>;

    fn send_notification_email(&self, email: &str, subject: &str, message: &str) -> Result<
        bool,
        String,
    >;
}

/// Recording what users do and what goes wrong.
pub trait ActivityLogger {
    fn log_user_activity(&self, username: &str, activity: &str);

    fn log_error(&self, error: &str, context: &str);
}

/// Tracking user events.
pub trait AnalyticsService {
    /// Tracks an event, with optional (key, value) details whose keys are distinct.
    fn track_user_event(
        &self,
        username: &str,
        event_name: &str,
        metadata: Option<Vec<(String, String)>>,
    );

    fn track_user_registration(&self, username: &str);

    fn track_user_update(&self, username: &str);
}

/// Pushing messages to users.
pub trait NotificationService {
    fn send_push_notification(&self, username: &str, message: &str) -> Result<bool, String>;

    fn send_sms_notification(&self, phone: &str, message: &str) -> Result<bool, String>;
}

/// The message that reports user data the validator refused.
pub open spec fn invalid_data_message(username: Seq<char>, email: Seq<char>) -> Seq<char> {
    "Invalid user data: username="@ + username + ", email="@ + email
}

fn invalid_data_string(username: &str, email: &str) -> (r: String)
    ensures
        r@ == invalid_data_message(username@, email@),
{
    let mut s = String::from_str("Invalid user data: username=");
    s.append(username);
    s.append(", email=");
    s.append(email);
    s
}

/// Creates and updates users by delegating each concern to the part that owns it.
pub struct CorrectUserService<R, E, L, V, F, A, N> where
    R: UserRepository,
    E: EmailService,
    L: ActivityLogger,
    V: UserValidator,
    F: UserFormatter,
    A: AnalyticsService,
    N: NotificationService,
 {
    user_repo: R,
    email_service: E,
    logger: L,
    validator: V,
    formatter: F,
    analytics: A,
    notification_service: Option<N>,
}

impl<R, E, L, V, F, A, N> CorrectUserService<R, E, L, V, F, A, N> where
    R: UserRepository,
    E: EmailService,
    L: ActivityLogger,
    V: UserValidator,
    F: UserFormatter,
    A: AnalyticsService,
    N: NotificationService,
 {
    /// The formatter of this service.
    pub closed spec fn formatter_view(&self) -> F {
        self.formatter
    }

    pub fn new(
        user_repo: R,
        email_service: E,
        logger: L,
        validator: V,
        formatter: F,
        analytics: A,
        notification_service: Option<N>,
    ) -> (r: Self)
        ensures
            r.formatter_view() == formatter,
    {
        CorrectUserService {
            user_repo,
            email_service,
            logger,
            validator,
            formatter,
            analytics,
            notification_service,
        }
    }

    /// Validates, stores and announces a new user. Fails with the invalid-data message
    /// when the validator refuses the data, or with the repository's error when storing
    /// fails; failures of email and notifications are only logged.
    pub fn create_user(&self, username: String, email: String) -> (r: Result<User, String>)
        ensures
            r is Ok ==> r->Ok_0.username_view() == username@ && r->Ok_0.email_view() == email@,
    {
        let user = User::new(username.clone(), email.clone());
        if !self.validator.validate_user(&user) {
            let error_msg = invalid_data_string(username.as_str(), email.as_str());
            self.logger.log_error(error_msg.as_str(), "User creation failed");
            return Err(error_msg);
        }
        match self.user_repo.save(&user) {
            Ok(_) => {},
            Err(e) => {
                self.logger.log_error(e.as_str(), "Failed to save user");
                return Err(e);
            },
        }
        match self.email_service.send_welcome_email(email.as_str()) {
            Ok(_) => {},
            Err(e) => {
                self.logger.log_error(e.as_str(), "Failed to send welcome email");
            },
        }
        self.logger.log_user_activity(username.as_str(), "User created");
        self.analytics.track_user_registration(username.as_str());
        match &self.notification_service {
            Some(notification_service) => {
                match notification_service.send_push_notification(
                    username.as_str(),
                    "Welcome! Your account has been created.",
                ) {
                    Ok(_) => {},
                    Err(e) => {
                        self.logger.log_error(e.as_str(), "Failed to send push notification");
                    },
                }
            },
            None => {},
        }
        Ok(user)
    }

    /// Validates the new data, then writes it into `user` and stores it. When the
    /// validator refuses the data, `user` is left as it was and the invalid-data
    /// message is returned; when storing fails, `user` already holds the new data and
    /// the repository's error is returned.
    pub fn update_user(&self, user: &mut User, new_username: String, new_email: String) -> (r:
        Result<(), String>)
        ensures
            r is Ok ==> {
                &&& final(user).username_view() == new_username@
                &&& final(user).email_view() == new_email@
            },
            *final(user) == *old(user) || {
                &&& final(user).username_view() == new_username@
                &&& final(user).email_view() == new_email@
            },
    {
        let temp_user = User::new(new_username.clone(), new_email.clone());
        if !self.validator.validate_user(&temp_user) {
            let error_msg = invalid_data_string(new_username.as_str(), new_email.as_str());
            self.logger.log_error(error_msg.as_str(), "User update failed");
            return Err(error_msg);
        }
        user.set_username(new_username.clone());
        user.set_email(new_email);
        match self.user_repo.update(user) {
            Ok(_) => {},
            Err(e) => {
                self.logger.log_error(e.as_str(), "Failed to update user");
                return Err(e);
            },
        }
        self.logger.log_user_activity(new_username.as_str(), "User updated");
        self.analytics.track_user_update(new_username.as_str());
        Ok(())
    }

    /// The user as the formatter shows it.
    pub fn format_user(&self, user: &User) -> (r: String)
        ensures
            r@ == self.formatter_view().display_form(user.username_view(), user.email_view()),
    {
        self.formatter.format_user_for_display(user)
    }

    /// The user's fields as the formatter hands them to an API.
    pub fn get_user_api_data(&self, user: &User) -> (r: Vec<(String, String)>)
        ensures
            pair_views(r@) == self.formatter_view().api_form(
                user.username_view(),
                user.email_view(),
            ),
    {
        self.formatter.format_user_for_api(user)
    }
}

} // verus!
