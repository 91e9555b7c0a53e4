use ai_assistant::credentials_manager::{
    credentials_path, generate_login_script, Credentials, CREDENTIALS_DIR, UNSUPPORTED_SERVICE,
};

const GEMINI_SCRIPT: &str = "\n            (function() {\n                // 检查是否有登录表单\n                const emailInput = document.querySelector('input[type=\"email\"]');\n                const passwordInput = document.querySelector('input[type=\"password\"]');\n                const loginButton = document.querySelector('button[type=\"submit\"]');\n                \n                if (emailInput && passwordInput && loginButton) {\n                    // 填充凭证\n                    emailInput.value = \"ada@example.com\";\n                    passwordInput.value = \"s3cret\";\n                    \n                    // 点击登录按钮\n                    setTimeout(() => {\n                        loginButton.click();\n                    }, 500);\n                    \n                    return true;\n                }\n                return false;\n            })()\n            ";

const POE_SCRIPT: &str = "\n            (function() {\n                // 检查是否有登录表单\n                const emailInput = document.querySelector('input[name=\"email\"]');\n                const passwordInput = document.querySelector('input[name=\"password\"]');\n                const loginButton = document.querySelector('button[type=\"submit\"]');\n                \n                if (emailInput && passwordInput && loginButton) {\n                    // 填充凭证\n                    emailInput.value = \"ada@example.com\";\n                    passwordInput.value = \"s3cret\";\n                    \n                    // 点击登录按钮\n                    setTimeout(() => {\n                        loginButton.click();\n                    }, 500);\n                    \n                    return true;\n                }\n                return false;\n            })()\n            ";

#[test]
fn gemini_script_is_exact() {
    let script = generate_login_script("gemini", "ada@example.com", "s3cret");
    assert_eq!(script, Ok(GEMINI_SCRIPT.to_string()));
}

#[test]
fn poe_script_is_exact() {
    let script = generate_login_script("poe", "ada@example.com", "s3cret");
    assert_eq!(script, Ok(POE_SCRIPT.to_string()));
}

#[test]
fn unknown_service_is_a_defined_failure() {
    assert_eq!(
        generate_login_script("bing", "ada@example.com", "s3cret"),
        Err("不支持的服务类型".to_string())
    );
    assert_eq!(UNSUPPORTED_SERVICE, "不支持的服务类型");
}

#[test]
fn service_names_are_matched_exactly() {
    assert!(generate_login_script("Gemini", "u", "p").is_err());
    assert!(generate_login_script(" poe", "u", "p").is_err());
    assert!(generate_login_script("", "u", "p").is_err());
    assert!(generate_login_script("gemini", "", "").is_ok());
}

#[test]
fn script_generation_is_repeatable() {
    let first = generate_login_script("poe", "user", "pass");
    let second = generate_login_script("poe", "user", "pass");
    assert_eq!(first, second);
    let other = generate_login_script("poe", "user", "pass2");
    assert_ne!(first, other);
}

#[test]
fn credentials_are_inserted_verbatim() {
    let script = generate_login_script("gemini", "a\"b", "c\\d").unwrap();
    assert!(script.contains("emailInput.value = \"a\"b\";"));
    assert!(script.contains("passwordInput.value = \"c\\d\";"));
}

#[test]
fn record_path_is_keyed_by_service() {
    assert_eq!(credentials_path("gemini"), "credentials/gemini.json");
    assert_eq!(credentials_path("poe"), "credentials/poe.json");
    assert_eq!(credentials_path(""), "credentials/.json");
    assert_ne!(credentials_path("gemini"), credentials_path("poe"));
    assert_eq!(CREDENTIALS_DIR, "credentials");
}

#[test]
fn record_holds_the_triple() {
    let record = Credentials::new("gemini", "ada", "pw");
    assert_eq!(record.service, "gemini");
    assert_eq!(record.username, "ada");
    assert_eq!(record.password, "pw");
}
