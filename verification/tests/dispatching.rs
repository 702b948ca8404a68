use vinmonopolet_client::cli::CliAction;
use vinmonopolet_client::cli::Command;
use vinmonopolet_client::cli::dispatch;
use vinmonopolet_client::cli::usage_lines;
use vinmonopolet_client::date::Date;

fn args_of(parts: &[&str]) -> Vec<String> {
    parts.iter().map(|p| p.to_string()).collect()
}

#[test]
fn no_subcommand_prints_usage() {
    assert_eq!(dispatch(&args_of(&["prog"])), CliAction::Usage);
    let lines = usage_lines();
    assert_eq!(lines.len(), 5);
    assert_eq!(lines[0], "Usage:");
    assert_eq!(lines[1], "  cargo run -- monthly-sales <from_date> <to_date>");
    assert_eq!(lines[4], "  cargo run -- updated-products <since_date>");
}

#[test]
fn monthly_sales_missing_args() {
    let expect = "Please provide from_date and to_date for monthly sales";
    assert_eq!(
        dispatch(&args_of(&["prog", "monthly-sales"])),
        CliAction::MissingArgs(expect.to_string())
    );
    assert_eq!(
        dispatch(&args_of(&["prog", "monthly-sales", "2024-01"])),
        CliAction::MissingArgs(expect.to_string())
    );
}

#[test]
fn monthly_sales_runs_with_both_dates() {
    assert_eq!(
        dispatch(&args_of(&["prog", "monthly-sales", "2024-01", "2024-02"])),
        CliAction::Run(Command::MonthlySales("2024-01".to_string(), "2024-02".to_string()))
    );
}

#[test]
fn product_details_missing_and_present() {
    assert_eq!(
        dispatch(&args_of(&["prog", "product-details"])),
        CliAction::MissingArgs("Please provide a product_id for product details".to_string())
    );
    assert_eq!(
        dispatch(&args_of(&["prog", "product-details", "ABC123"])),
        CliAction::Run(Command::ProductDetails("ABC123".to_string()))
    );
}

#[test]
fn price_conditions_missing_and_present() {
    assert_eq!(
        dispatch(&args_of(&["prog", "price-conditions"])),
        CliAction::MissingArgs("Please provide a product_id for price conditions".to_string())
    );
    assert_eq!(
        dispatch(&args_of(&["prog", "price-conditions", "X1"])),
        CliAction::Run(Command::PriceConditions("X1".to_string()))
    );
}

#[test]
fn updated_products_missing_arg() {
    assert_eq!(
        dispatch(&args_of(&["prog", "updated-products"])),
        CliAction::MissingArgs("Please provide a since_date for updated products".to_string())
    );
}

#[test]
fn updated_products_with_a_valid_date_runs() {
    assert_eq!(
        dispatch(&args_of(&["prog", "updated-products", "2024-03-05"])),
        CliAction::Run(Command::UpdatedProducts(Date { year: 2024, month: 3, day: 5 }))
    );
}

#[test]
fn updated_products_with_a_bad_date_is_fatal_before_any_request() {
    assert_eq!(dispatch(&args_of(&["prog", "updated-products", "2024/13/40"])), CliAction::BadDate);
    assert_eq!(dispatch(&args_of(&["prog", "updated-products", "2024-13-40"])), CliAction::BadDate);
}

#[test]
fn unknown_subcommand_is_reported() {
    let expect =
        "Unknown command. Use one of: monthly-sales, product-details, price-conditions, updated-products";
    assert_eq!(
        dispatch(&args_of(&["prog", "frobnicate"])),
        CliAction::UnknownCommand(expect.to_string())
    );
}
