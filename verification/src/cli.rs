//! The command dispatcher: from the process argument list to the action the
//! program takes, with the exact messages pinned. No network work happens
//! here; the dispatcher only decides.

use vstd::prelude::*;
use crate::date::Date;
use crate::date::date_of_text;
use crate::date::date_text_parses;
use crate::date::parse_date;
use crate::text::str_eq;

verus! {

/// A fully-bound endpoint invocation.
#[derive(Debug, Clone, PartialEq, Eq)]
pub enum Command {
    MonthlySales(String, String),
    ProductDetails(String),
    PriceConditions(String),
    UpdatedProducts(Date),
}

/// What the program does for a given argument list.
#[derive(Debug, Clone, PartialEq, Eq)]
pub enum CliAction {
    /// No subcommand given: print the usage lines and exit successfully.
    Usage,
    /// A subcommand lacked its required arguments: print the message and
    /// exit successfully.
    MissingArgs(String),
    /// Perform one API call.
    Run(Command),
    /// The `since_date` argument is not a valid `YYYY-MM-DD` date: fatal.
    BadDate,
    /// An unrecognised subcommand: print the message and exit successfully.
    UnknownCommand(String),
}

pub open spec fn known_command(c: Seq<char>) -> bool {
    ||| c == "monthly-sales"@
    ||| c == "product-details"@
    ||| c == "price-conditions"@
    ||| c == "updated-products"@
}

/// Decides the action for an argument list (program name first). Missing
/// arguments never run a command, and a malformed `since_date` is rejected
/// before any request is built.
pub fn dispatch(args: &Vec<String>) -> (r: CliAction)
    ensures
        args@.len() < 2 <==> r is Usage,
        args@.len() >= 2 && args@[1]@ == "monthly-sales"@ && args@.len() < 4 ==> (r matches
            CliAction::MissingArgs(m) && m@
            == "Please provide from_date and to_date for monthly sales"@),
        args@.len() >= 4 && args@[1]@ == "monthly-sales"@ ==> (r matches CliAction::Run(c)
            && c matches Command::MonthlySales(f, t) && f@ == args@[2]@ && t@ == args@[3]@),
        args@.len() >= 2 && args@[1]@ == "product-details"@ && args@.len() < 3 ==> (r matches
            CliAction::MissingArgs(m) && m@ == "Please provide a product_id for product details"@),
        args@.len() >= 3 && args@[1]@ == "product-details"@ ==> (r matches CliAction::Run(c)
            && c matches Command::ProductDetails(id) && id@ == args@[2]@),
        args@.len() >= 2 && args@[1]@ == "price-conditions"@ && args@.len() < 3 ==> (r matches
            CliAction::MissingArgs(m) && m@
            == "Please provide a product_id for price conditions"@),
        args@.len() >= 3 && args@[1]@ == "price-conditions"@ ==> (r matches CliAction::Run(c)
            && c matches Command::PriceConditions(id) && id@ == args@[2]@),
        args@.len() >= 2 && args@[1]@ == "updated-products"@ && args@.len() < 3 ==> (r matches
            CliAction::MissingArgs(m) && m@ == "Please provide a since_date for updated products"@),
        args@.len() >= 3 && args@[1]@ == "updated-products"@ && date_text_parses(args@[2]@) ==> (
        r matches CliAction::Run(c) && c matches Command::UpdatedProducts(d) && d == date_of_text(
            args@[2]@,
        )),
        args@.len() >= 3 && args@[1]@ == "updated-products"@ && !date_text_parses(args@[2]@)
            ==> r is BadDate,
        args@.len() >= 2 && !known_command(args@[1]@) ==> (r matches CliAction::UnknownCommand(m)
            && m@
            == "Unknown command. Use one of: monthly-sales, product-details, price-conditions, updated-products"@),
{
    proof {
        reveal_strlit("monthly-sales");
        reveal_strlit("product-details");
        reveal_strlit("price-conditions");
        reveal_strlit("updated-products");
        assert("monthly-sales"@.len() == 13);
        assert("product-details"@.len() == 15);
        assert("monthly-sales"@ != "product-details"@);
        assert("monthly-sales"@ != "price-conditions"@);
        assert("monthly-sales"@ != "updated-products"@);
        assert("product-details"@ != "price-conditions"@);
        assert("product-details"@ != "updated-products"@);
        assert("price-conditions"@[0] == 'p' && "updated-products"@[0] == 'u');
        assert("price-conditions"@ != "updated-products"@);
    }
    if args.len() < 2 {
        return CliAction::Usage;
    }
    let cmd = args[1].as_str();
    if str_eq(cmd, "monthly-sales") {
        if args.len() < 4 {
            return CliAction::MissingArgs(
                String::from_str("Please provide from_date and to_date for monthly sales"),
            );
        }
        let from = args[2].clone();
        let to = args[3].clone();
        CliAction::Run(Command::MonthlySales(from, to))
    } else if str_eq(cmd, "product-details") {
        if args.len() < 3 {
            return CliAction::MissingArgs(
                String::from_str("Please provide a product_id for product details"),
            );
        }
        CliAction::Run(Command::ProductDetails(args[2].clone()))
    } else if str_eq(cmd, "price-conditions") {
        if args.len() < 3 {
            return CliAction::MissingArgs(
                String::from_str("Please provide a product_id for price conditions"),
            );
        }
        CliAction::Run(Command::PriceConditions(args[2].clone()))
    } else if str_eq(cmd, "updated-products") {
        if args.len() < 3 {
            return CliAction::MissingArgs(
                String::from_str("Please provide a since_date for updated products"),
            );
        }
        match parse_date(args[2].as_str()) {
            Some(d) => CliAction::Run(Command::UpdatedProducts(d)),
            None => CliAction::BadDate,
        }
    } else {
        CliAction::UnknownCommand(
            String::from_str(
                "Unknown command. Use one of: monthly-sales, product-details, price-conditions, updated-products",
            ),
        )
    }
}

/// The usage lines printed when no subcommand is given.
pub fn usage_lines() -> (r: Vec<String>)
    ensures
        r@.len() == 5,
        r@[0]@ == "Usage:"@,
        r@[1]@ == "  cargo run -- monthly-sales <from_date> <to_date>"@,
        r@[2]@ == "  cargo run -- product-details <product_id>"@,
        r@[3]@ == "  cargo run -- price-conditions <product_id>"@,
        r@[4]@ == "  cargo run -- updated-products <since_date>"@,
{
    let mut out: Vec<String> = Vec::new();
    out.push(String::from_str("Usage:"));
    out.push(String::from_str("  cargo run -- monthly-sales <from_date> <to_date>"));
    out.push(String::from_str("  cargo run -- product-details <product_id>"));
    out.push(String::from_str("  cargo run -- price-conditions <product_id>"));
    out.push(String::from_str("  cargo run -- updated-products <since_date>"));
    out
}

} // verus!
