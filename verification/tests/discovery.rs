//! Discovery of candidate artifacts by extension, and the wallet wire
//! shapes of the billing collaborator.

use local_llm::models::{has_gguf_extension, list_available_gguf_models};
use local_llm::wallet::{Currency, Response, Wallet, WalletStatus};

#[test]
fn gguf_filter_keeps_only_matching_entries() {
    let entries = vec![
        "data/llm.gguf".to_string(),
        "data/readme.txt".to_string(),
        "data/llm.gguf.part".to_string(),
        "data/other.gguf".to_string(),
        "notes".to_string(),
    ];
    let models = list_available_gguf_models(entries);
    assert_eq!(
        models,
        vec!["data/llm.gguf".to_string(), "data/other.gguf".to_string()]
    );
}

#[test]
fn gguf_extension_edge_cases() {
    assert!(has_gguf_extension(&"a.gguf".to_string()));
    assert!(has_gguf_extension(&"dir/llm.gguf".to_string()));
    assert!(!has_gguf_extension(&".gguf".to_string()));
    assert!(!has_gguf_extension(&"gguf".to_string()));
    assert!(!has_gguf_extension(&"model.GGUF".to_string()));
    assert!(!has_gguf_extension(&"model.gguf2".to_string()));
    assert!(!has_gguf_extension(&"".to_string()));
}

fn sample_wallet(status: WalletStatus) -> Wallet {
    Wallet {
        balance_cents: 1000,
        consumed_credits: "0.0".to_string(),
        created_at: "2024-01-01T00:00:00Z".to_string(),
        credits_balance: "10.0".to_string(),
        credits_ongoing_balance: "10.0".to_string(),
        credits_ongoing_usage_balance: "0.0".to_string(),
        currency: Currency {
            code: "USD".to_string(),
        },
        external_customer_id: "customer_1".to_string(),
        lago_customer_id: "lago_customer_1".to_string(),
        lago_id: "lago_wallet_1".to_string(),
        ongoing_balance_cents: 1000,
        ongoing_usage_balance_cents: 0,
        rate_amount: "1.0".to_string(),
        status,
        expiration_at: None,
        invoice_requires_successful_payment: None,
        last_balance_sync_at: None,
        last_consumed_credit_at: None,
        name: Some("main".to_string()),
        recurring_transaction_rules: None,
        terminated_at: None,
    }
}

#[test]
fn wallet_response_classification() {
    let created = Response::Created {
        wallet: Box::new(sample_wallet(WalletStatus::Active)),
    };
    assert!(created.is_created());
    assert_eq!(created.refusal_status(), None);

    let refused = Response::Refused {
        status: 422,
        error: "validation failed".to_string(),
    };
    assert!(!refused.is_created());
    assert_eq!(refused.refusal_status(), Some(422));
}

#[test]
fn wallet_activity_follows_status() {
    assert!(sample_wallet(WalletStatus::Active).is_active());
    assert!(!sample_wallet(WalletStatus::Terminated).is_active());
}
