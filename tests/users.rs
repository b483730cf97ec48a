use solid_principles::services::{
    ActivityLogger, AnalyticsService, CorrectUserService, EmailService, NotificationService,
    UserRepository,
};
use solid_principles::transistors::TransistorType;
use solid_principles::users::{
    DefaultUserFormatter, DefaultUserValidator, User, UserFormatter, UserValidator,
    ViolationUserService,
};
use std::cell::RefCell;

#[test]
fn user_getters_and_setters() {
    let mut u = User::new("john_doe".to_string(), "john@example.com".to_string());
    assert_eq!(u.username(), "john_doe");
    assert_eq!(u.email(), "john@example.com");
    u.set_username("jane".to_string());
    u.set_email("jane@example.org".to_string());
    assert_eq!(u.username(), "jane");
    assert_eq!(u.email(), "jane@example.org");
}

#[test]
fn usernames() {
    let v = DefaultUserValidator::new();
    assert!(v.validate_username("john_doe"));
    assert!(v.validate_username("abc"));
    assert!(v.validate_username("a2345678901234567890"));
    assert!(!v.validate_username("ab"));
    assert!(!v.validate_username("a23456789012345678901"));
    assert!(!v.validate_username("john doe"));
    assert!(!v.validate_username("john-doe"));
    assert!(v.validate_username("jöhn"));
    // lengths count bytes: two characters, three bytes
    assert!(v.validate_username("aé"));
    assert!(v.validate_username(&"é".repeat(10)));
    assert!(!v.validate_username(&"é".repeat(11)));
    assert!(v.validate_username("éé_"));
}

#[test]
fn passwords() {
    let v = DefaultUserValidator::new();
    assert!(v.validate_password("Passw0rd"));
    assert!(!v.validate_password("Pass0rd"));
    assert!(!v.validate_password("password1"));
    assert!(!v.validate_password("PASSWORD1"));
    assert!(!v.validate_password("Password"));
    assert!(v.validate_password("ÄbcdefgH1"));
}

#[test]
fn emails() {
    let v = DefaultUserValidator::new();
    assert!(v.validate_email("john@example.com"));
    assert!(!v.validate_email("john@example"));
    assert!(!v.validate_email("john example@x.com"));
    assert!(!v.validate_email("john@@example.com"));
    assert!(!v.validate_email("@example.com"));
    let u = User::new("john_doe".to_string(), "john@example.com".to_string());
    assert!(v.validate_user(&u));
    let bad = User::new("jd".to_string(), "john@example.com".to_string());
    assert!(!v.validate_user(&bad));
}

#[test]
fn formatter_outputs() {
    let f = DefaultUserFormatter::new();
    let u = User::new("john_doe".to_string(), "john@example.com".to_string());
    assert_eq!(f.format_user_for_display(&u), "john_doe (john@example.com)");
    assert_eq!(f.format_user_for_csv(&u), "john_doe,john@example.com");
    assert_eq!(
        f.format_user_for_api(&u),
        vec![
            ("username".to_string(), "john_doe".to_string()),
            ("email".to_string(), "john@example.com".to_string()),
            ("display_name".to_string(), "john_doe (john@example.com)".to_string()),
        ]
    );
}

#[test]
fn violation_user_service_methods() {
    let mut s = ViolationUserService::new("john_doe".to_string(), "john@example.com".to_string());
    assert!(s.validate_email());
    assert!(s.validate_username());
    assert!(s.validate_password("Secr3tPass"));
    assert!(!s.validate_password("short1A"));
    assert_eq!(s.format_user_for_display(), "john_doe (john@example.com)");
    assert_eq!(s.export_user_to_csv(), Ok("john_doe,john@example.com".to_string()));
    assert_eq!(s.format_user_for_api()[2].1, "john_doe (john@example.com)");
    assert_eq!(s.connect_to_database(), Ok(true));
    s.close_database_connection();
    assert_eq!(s.update_user("x".to_string(), "bad".to_string()), Ok(true));
    assert_eq!(s.username, "x");
    assert_eq!(s.email, "bad");
    assert!(!s.validate_username());
    assert!(!s.validate_email());
}

#[test]
fn transistor_labels() {
    assert_eq!(TransistorType::BJT.label(), "BJT");
    assert_eq!(TransistorType::FET.label(), "FET");
    assert_eq!(TransistorType::MOSFET.label(), "MOSFET");
}

struct Repo {
    fail: bool,
    saved: RefCell<Vec<String>>,
}

impl UserRepository for Repo {
    fn save(&self, user: &User) -> Result<bool, String> {
        if self.fail {
            return Err("disk full".to_string());
        }
        self.saved.borrow_mut().push(user.username().to_string());
        Ok(true)
    }
    fn update(&self, user: &User) -> Result<bool, String> {
        self.save(user)
    }
    fn find_by_id(&self, _user_id: &str) -> Result<Option<User>, String> {
        Ok(None)
    }
    fn delete(&self, _user: &User) -> Result<bool, String> {
        Ok(true)
    }
}

struct Mail;

impl EmailService for Mail {
    fn send_welcome_email(&self, _email: &str) -> Result<bool, String> {
        Err("smtp down".to_string())
    }
    fn send_password_reset_email(&self, _email: &str) -> Result<bool, String> {
        Ok(true)
    }
    fn send_notification_email(&self, _e: &str, _s: &str, _m: &str) -> Result<bool, String> {
        Ok(true)
    }
}

#[derive(Default)]
struct Log {
    lines: RefCell<Vec<String>>,
}

impl ActivityLogger for Log {
    fn log_user_activity(&self, username: &str, activity: &str) {
        self.lines.borrow_mut().push(format!("{username}: {activity}"));
    }
    fn log_error(&self, error: &str, context: &str) {
        self.lines.borrow_mut().push(format!("{context}: {error}"));
    }
}

struct Stats;

impl AnalyticsService for Stats {
    fn track_user_event(&self, _u: &str, _e: &str, _m: Option<Vec<(String, String)>>) {}
    fn track_user_registration(&self, _u: &str) {}
    fn track_user_update(&self, _u: &str) {}
}

struct Push;

impl NotificationService for Push {
    fn send_push_notification(&self, _u: &str, _m: &str) -> Result<bool, String> {
        Ok(true)
    }
    fn send_sms_notification(&self, _p: &str, _m: &str) -> Result<bool, String> {
        Ok(true)
    }
}

type Service = CorrectUserService<Repo, Mail, Log, DefaultUserValidator, DefaultUserFormatter, Stats, Push>;

fn service(fail: bool) -> Service {
    CorrectUserService::new(
        Repo { fail, saved: RefCell::new(Vec::new()) },
        Mail,
        Log::default(),
        DefaultUserValidator::new(),
        DefaultUserFormatter::new(),
        Stats,
        Some(Push),
    )
}

#[test]
fn create_user_succeeds_despite_email_failure() {
    let s = service(false);
    let u = s.create_user("john_doe".to_string(), "john@example.com".to_string()).unwrap();
    assert_eq!(u.username(), "john_doe");
    assert_eq!(u.email(), "john@example.com");
    assert_eq!(s.format_user(&u), "john_doe (john@example.com)");
    assert_eq!(s.get_user_api_data(&u).len(), 3);
}

#[test]
fn create_user_rejects_invalid_data() {
    let s = service(false);
    let r = s.create_user("jd".to_string(), "nope".to_string());
    assert_eq!(r.unwrap_err(), "Invalid user data: username=jd, email=nope");
}

#[test]
fn create_user_reports_storage_failure() {
    let s = service(true);
    let r = s.create_user("john_doe".to_string(), "john@example.com".to_string());
    assert_eq!(r.unwrap_err(), "disk full");
}

#[test]
fn update_user_checks_then_writes() {
    let s = service(false);
    let mut u = User::new("john_doe".to_string(), "john@example.com".to_string());
    assert_eq!(
        s.update_user(&mut u, "x".to_string(), "y".to_string()),
        Err("Invalid user data: username=x, email=y".to_string())
    );
    assert_eq!(u.username(), "john_doe");
    assert_eq!(
        s.update_user(&mut u, "john_smith".to_string(), "john.smith@example.com".to_string()),
        Ok(())
    );
    assert_eq!(u.username(), "john_smith");
    assert_eq!(u.email(), "john.smith@example.com");
}
