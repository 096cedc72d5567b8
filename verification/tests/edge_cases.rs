use exercises::common::common_main;
use exercises::common::ex9_matrix;
use exercises::decimal::i32_dec_string;
use exercises::decimal::parse_i32;
use exercises::lookup::get_username;
use exercises::lookup::safe_div;
use exercises::login::validate_login;
use exercises::media::MediaState;
use exercises::order::Order;
use exercises::order::OrderStatus;
use exercises::percentage::parse_percentage;
use exercises::user::User;

#[test]
fn terminal_status_is_absorbing() {
    let mut order = Order::new();
    for _ in 0..10 {
        order.advance();
    }
    assert_eq!(order.status, OrderStatus::Cancelled);
}

#[test]
fn each_status_steps_to_its_successor() {
    let mut order = Order { status: OrderStatus::Created };
    order.advance();
    assert_eq!(order.status, OrderStatus::Paid);
    let mut order = Order { status: OrderStatus::Paid };
    order.advance();
    assert_eq!(order.status, OrderStatus::Shipped);
    let mut order = Order { status: OrderStatus::Shipped };
    order.advance();
    assert_eq!(order.status, OrderStatus::Delivered);
    let mut order = Order { status: OrderStatus::Delivered };
    order.advance();
    assert_eq!(order.status, OrderStatus::Cancelled);
    let mut order = Order { status: OrderStatus::Cancelled };
    order.advance();
    assert_eq!(order.status, OrderStatus::Cancelled);
}

#[test]
fn percentage_bounds_are_inclusive() {
    assert_eq!(parse_percentage("0"), Ok(0));
    assert_eq!(parse_percentage("100"), Ok(100));
}

#[test]
fn percentage_accepts_explicit_sign() {
    assert_eq!(parse_percentage("+56"), Ok(56));
    assert_eq!(parse_percentage("-0"), Ok(0));
}

#[test]
fn percentage_rejects_negative_values_with_the_range_message() {
    assert_eq!(parse_percentage("-5"), Err("Value -5 is out of range (0-100)".to_string()));
    assert_eq!(
        parse_percentage("2147483647"),
        Err("Value 2147483647 is out of range (0-100)".to_string())
    );
}

#[test]
fn percentage_rejects_non_numbers_with_the_number_message() {
    assert_eq!(parse_percentage(""), Err("'' is not a valid number".to_string()));
    assert_eq!(parse_percentage("-"), Err("'-' is not a valid number".to_string()));
    assert_eq!(parse_percentage(" 56"), Err("' 56' is not a valid number".to_string()));
    assert_eq!(parse_percentage("12a"), Err("'12a' is not a valid number".to_string()));
    assert_eq!(
        parse_percentage("2147483648"),
        Err("'2147483648' is not a valid number".to_string())
    );
}

#[test]
fn integer_parsing_matches_the_machine_range() {
    assert_eq!(parse_i32("2147483647"), Some(2147483647));
    assert_eq!(parse_i32("-2147483648"), Some(-2147483648));
    assert_eq!(parse_i32("2147483648"), None);
    assert_eq!(parse_i32("-2147483649"), None);
    assert_eq!(parse_i32("007"), Some(7));
}

#[test]
fn integer_rendering_is_exact() {
    assert_eq!(i32_dec_string(0), "0".to_string());
    assert_eq!(i32_dec_string(-123), "-123".to_string());
    assert_eq!(i32_dec_string(2147483647), "2147483647".to_string());
    assert_eq!(i32_dec_string(-2147483648), "-2147483648".to_string());
}

#[test]
fn division_truncates_toward_zero() {
    assert_eq!(safe_div(-7, 2), Some(-3));
    assert_eq!(safe_div(7, -2), Some(-3));
    assert_eq!(safe_div(-7, -2), Some(3));
    assert_eq!(safe_div(0, 5), Some(0));
    assert_eq!(safe_div(i32::MIN, 1), Some(i32::MIN));
    assert_eq!(safe_div(i32::MIN, 0), None);
}

#[test]
fn password_length_counts_bytes() {
    assert_eq!(validate_login("user", "aaaaaaä"), Ok(()));
    assert_eq!(validate_login("user", "1234567"), Err("Password is too short".to_string()));
    assert_eq!(validate_login("", ""), Err("Username is empty".to_string()));
}

#[test]
fn unknown_user_ids_have_no_name() {
    assert_eq!(get_username(5), Some("Eshmat".to_string()));
    assert_eq!(get_username(2), None);
    assert_eq!(get_username(u32::MAX), None);
}

#[test]
fn stopped_player_has_nothing_to_play() {
    let stopped = MediaState::Stopped;
    assert_eq!(stopped.play(), "Nothing to play".to_string());
}

#[test]
fn deactivation_keeps_the_other_fields() {
    let mut user = User::new(7, String::from("t4jZt@example.com"));
    user.deactivate();
    assert!(!user.is_active);
    assert_eq!(user.id, 7);
    assert_eq!(user.email, "t4jZt@example.com");
}

#[test]
fn the_matrix_is_all_zeroes() {
    let m = ex9_matrix();
    for row in m.iter() {
        for v in row.iter() {
            assert_eq!(*v, 0);
        }
    }
    let m2 = common_main();
    assert_eq!(m, m2);
}
