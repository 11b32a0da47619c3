use token_hub::auth::password::verify_password;
use token_hub::cli::{prepare_admin, status_report, toggle_report};

#[test]
fn admin_preparation_validates_and_hashes() {
    assert_eq!(
        prepare_admin(String::new(), "pw", "super_admin").unwrap_err(),
        "phone and password must not be empty"
    );
    assert_eq!(
        prepare_admin("138".to_string(), "", "super_admin").unwrap_err(),
        "phone and password must not be empty"
    );
    let a = prepare_admin("13800138000".to_string(), "pw", "super_admin").unwrap();
    assert!(a.id.starts_with("adm_"));
    assert_eq!(a.phone, "13800138000");
    assert_eq!(a.roles, vec!["super_admin".to_string()]);
    assert!(verify_password("pw", &a.password_hash).is_ok());
    assert_eq!(a.totp_secret.len(), 32);
    assert_eq!(
        a.otpauth_url,
        format!(
            "otpauth://totp/TokenHub:13800138000?secret={}&issuer=TokenHub&algorithm=SHA1&digits=6&period=30",
            a.totp_secret
        )
    );
}

#[test]
fn tunnel_reports() {
    assert_eq!(
        toggle_report(true, Some("a3k9x2"), None),
        vec![
            "\n✓ Tun 通道已开通！".to_string(),
            "  Service ID: a3k9x2".to_string(),
            "  访问地址:   https://N/A".to_string(),
            "\n  手机端访问此地址即可远程管理 TokenHub。".to_string(),
        ]
    );
    assert_eq!(toggle_report(false, None, None), vec!["\n✓ Tun 通道已关闭。".to_string()]);
    assert_eq!(
        status_report(true, Some("a3k9x2"), Some("a3k9x2.tun.alius.tech")),
        vec![
            "\nTun 通道状态：".to_string(),
            "  活跃:      ✅ 是".to_string(),
            "  Service ID: a3k9x2".to_string(),
            "  访问地址:   a3k9x2.tun.alius.tech".to_string(),
        ]
    );
}

#[test]
fn admin_preparation_succeeds_for_non_empty_inputs() {
    let a = prepare_admin("13800000000".to_string(), "pw", "super_admin").unwrap();
    assert!(verify_password("pw", &a.password_hash).is_ok());
    assert!(a.id.starts_with("adm_"));
}
