//! The catalogue of currencies offered for conversion: each code with the
//! name it is shown under.

use vstd::prelude::*;
use vstd::string::*;

verus! {

/// The catalogue: rows of currency code and display name, in the order in
/// which they are offered.
pub open spec fn currency_names() -> Seq<(Seq<char>, Seq<char>)> {
    seq![
        // Major currencies
        ("USD"@, "United States Dollar"@),
        ("EUR"@, "Euro"@),
        ("GBP"@, "British Pound"@),
        ("JPY"@, "Japanese Yen"@),
        ("CHF"@, "Swiss Franc"@),
        // Asia and the Pacific
        ("CNY"@, "Chinese Yuan"@),
        ("INR"@, "Indian Rupee"@),
        ("SGD"@, "Singapore Dollar"@),
        ("HKD"@, "Hong Kong Dollar"@),
        ("AUD"@, "Australian Dollar"@),
        ("NZD"@, "New Zealand Dollar"@),
        ("THB"@, "Thai Baht"@),
        ("MYR"@, "Malaysian Ringgit"@),
        ("IDR"@, "Indonesian Rupiah"@),
        // The Americas
        ("CAD"@, "Canadian Dollar"@),
        ("MXN"@, "Mexican Peso"@),
        ("BRL"@, "Brazilian Real"@),
        ("ARS"@, "Argentine Peso"@),
        ("CLP"@, "Chilean Peso"@),
        // Europe outside the euro
        ("SEK"@, "Swedish Krona"@),
        ("NOK"@, "Norwegian Krone"@),
        ("DKK"@, "Danish Krone"@),
        ("PLN"@, "Polish Zloty"@),
        ("CZK"@, "Czech Koruna"@),
        ("HUF"@, "Hungarian Forint"@),
        ("RON"@, "Romanian Leu"@),
        // Africa and the Middle East
        ("ZAR"@, "South African Rand"@),
        ("SAR"@, "Saudi Arabian Riyal"@),
        ("AED"@, "United Arab Emirates Dirham"@),
        ("TRY"@, "Turkish Lira"@),
        // The Commonwealth of Independent States
        ("RUB"@, "Russian Ruble"@),
        ("KZT"@, "Kazakhstani Tenge"@),
        ("UAH"@, "Ukrainian Hryvnia"@),
        ("BYN"@, "Belarusian Ruble"@),
        ("AMD"@, "Armenian Dram"@),
        ("GEL"@, "Georgian Lari"@),
        ("UZS"@, "Uzbekistani Som"@),
        ("KGS"@, "Kyrgyzstani Som"@),
        ("TJS"@, "Tajikistani Somoni"@),
    ]
}

/// Appends the row of `code` and `name` to `names`.
fn push_currency(names: &mut Vec<(String, String)>, code: &str, name: &str)
    ensures
        final(names).deep_view() == old(names).deep_view().push((code@, name@)),
{
    names.push((String::from_str(code), String::from_str(name)));
    assert(names.deep_view() =~= old(names).deep_view().push((code@, name@)));
}

/// Builds the catalogue.
pub fn get_currency_names() -> (names: Vec<(String, String)>)
    ensures
        names.deep_view() == currency_names(),
{
    let mut names: Vec<(String, String)> = Vec::new();
    assert(names.deep_view() =~= Seq::empty());

    // Major currencies
    push_currency(&mut names, "USD", "United States Dollar");
    push_currency(&mut names, "EUR", "Euro");
    push_currency(&mut names, "GBP", "British Pound");
    push_currency(&mut names, "JPY", "Japanese Yen");
    push_currency(&mut names, "CHF", "Swiss Franc");

    // Asia and the Pacific
    push_currency(&mut names, "CNY", "Chinese Yuan");
    push_currency(&mut names, "INR", "Indian Rupee");
    push_currency(&mut names, "SGD", "Singapore Dollar");
    push_currency(&mut names, "HKD", "Hong Kong Dollar");
    push_currency(&mut names, "AUD", "Australian Dollar");
    push_currency(&mut names, "NZD", "New Zealand Dollar");
    push_currency(&mut names, "THB", "Thai Baht");
    push_currency(&mut names, "MYR", "Malaysian Ringgit");
    push_currency(&mut names, "IDR", "Indonesian Rupiah");

    // The Americas
    push_currency(&mut names, "CAD", "Canadian Dollar");
    push_currency(&mut names, "MXN", "Mexican Peso");
    push_currency(&mut names, "BRL", "Brazilian Real");
    push_currency(&mut names, "ARS", "Argentine Peso");
    push_currency(&mut names, "CLP", "Chilean Peso");

    // Europe outside the euro
    push_currency(&mut names, "SEK", "Swedish Krona");
    push_currency(&mut names, "NOK", "Norwegian Krone");
    push_currency(&mut names, "DKK", "Danish Krone");
    push_currency(&mut names, "PLN", "Polish Zloty");
    push_currency(&mut names, "CZK", "Czech Koruna");
    push_currency(&mut names, "HUF", "Hungarian Forint");
    push_currency(&mut names, "RON", "Romanian Leu");

    // Africa and the Middle East
    push_currency(&mut names, "ZAR", "South African Rand");
    push_currency(&mut names, "SAR", "Saudi Arabian Riyal");
    push_currency(&mut names, "AED", "United Arab Emirates Dirham");
    push_currency(&mut names, "TRY", "Turkish Lira");

    // The Commonwealth of Independent States
    push_currency(&mut names, "RUB", "Russian Ruble");
    push_currency(&mut names, "KZT", "Kazakhstani Tenge");
    push_currency(&mut names, "UAH", "Ukrainian Hryvnia");
    push_currency(&mut names, "BYN", "Belarusian Ruble");
    push_currency(&mut names, "AMD", "Armenian Dram");
    push_currency(&mut names, "GEL", "Georgian Lari");
    push_currency(&mut names, "UZS", "Uzbekistani Som");
    push_currency(&mut names, "KGS", "Kyrgyzstani Som");
    push_currency(&mut names, "TJS", "Tajikistani Somoni");

    names
}

/// Whether `code` is written with the three letters `first`, `second` and
/// `third`.
spec fn spelled(code: Seq<char>, first: char, second: char, third: char) -> bool {
    code.len() == 3 && code[0] == first && code[1] == second && code[2] == third
}

/// No currency code is listed twice: the catalogue is a mapping from code
/// to name.
pub proof fn law_each_code_is_listed_once(i: int, j: int)
    requires
        0 <= i < j < currency_names().len(),
    ensures
        currency_names()[i].0 != currency_names()[j].0,
{
    reveal_strlit("USD");
    reveal_strlit("EUR");
    reveal_strlit("GBP");
    reveal_strlit("JPY");
    reveal_strlit("CHF");
    reveal_strlit("CNY");
    reveal_strlit("INR");
    reveal_strlit("SGD");
    reveal_strlit("HKD");
    reveal_strlit("AUD");
    reveal_strlit("NZD");
    reveal_strlit("THB");
    reveal_strlit("MYR");
    reveal_strlit("IDR");
    reveal_strlit("CAD");
    reveal_strlit("MXN");
    reveal_strlit("BRL");
    reveal_strlit("ARS");
    reveal_strlit("CLP");
    reveal_strlit("SEK");
    reveal_strlit("NOK");
    reveal_strlit("DKK");
    reveal_strlit("PLN");
    reveal_strlit("CZK");
    reveal_strlit("HUF");
    reveal_strlit("RON");
    reveal_strlit("ZAR");
    reveal_strlit("SAR");
    reveal_strlit("AED");
    reveal_strlit("TRY");
    reveal_strlit("RUB");
    reveal_strlit("KZT");
    reveal_strlit("UAH");
    reveal_strlit("BYN");
    reveal_strlit("AMD");
    reveal_strlit("GEL");
    reveal_strlit("UZS");
    reveal_strlit("KGS");
    reveal_strlit("TJS");
    assert(spelled("USD"@, 'U', 'S', 'D'));
    assert(spelled("EUR"@, 'E', 'U', 'R'));
    assert(spelled("GBP"@, 'G', 'B', 'P'));
    assert(spelled("JPY"@, 'J', 'P', 'Y'));
    assert(spelled("CHF"@, 'C', 'H', 'F'));
    assert(spelled("CNY"@, 'C', 'N', 'Y'));
    assert(spelled("INR"@, 'I', 'N', 'R'));
    assert(spelled("SGD"@, 'S', 'G', 'D'));
    assert(spelled("HKD"@, 'H', 'K', 'D'));
    assert(spelled("AUD"@, 'A', 'U', 'D'));
    assert(spelled("NZD"@, 'N', 'Z', 'D'));
    assert(spelled("THB"@, 'T', 'H', 'B'));
    assert(spelled("MYR"@, 'M', 'Y', 'R'));
    assert(spelled("IDR"@, 'I', 'D', 'R'));
    assert(spelled("CAD"@, 'C', 'A', 'D'));
    assert(spelled("MXN"@, 'M', 'X', 'N'));
    assert(spelled("BRL"@, 'B', 'R', 'L'));
    assert(spelled("ARS"@, 'A', 'R', 'S'));
    assert(spelled("CLP"@, 'C', 'L', 'P'));
    assert(spelled("SEK"@, 'S', 'E', 'K'));
    assert(spelled("NOK"@, 'N', 'O', 'K'));
    assert(spelled("DKK"@, 'D', 'K', 'K'));
    assert(spelled("PLN"@, 'P', 'L', 'N'));
    assert(spelled("CZK"@, 'C', 'Z', 'K'));
    assert(spelled("HUF"@, 'H', 'U', 'F'));
    assert(spelled("RON"@, 'R', 'O', 'N'));
    assert(spelled("ZAR"@, 'Z', 'A', 'R'));
    assert(spelled("SAR"@, 'S', 'A', 'R'));
    assert(spelled("AED"@, 'A', 'E', 'D'));
    assert(spelled("TRY"@, 'T', 'R', 'Y'));
    assert(spelled("RUB"@, 'R', 'U', 'B'));
    assert(spelled("KZT"@, 'K', 'Z', 'T'));
    assert(spelled("UAH"@, 'U', 'A', 'H'));
    assert(spelled("BYN"@, 'B', 'Y', 'N'));
    assert(spelled("AMD"@, 'A', 'M', 'D'));
    assert(spelled("GEL"@, 'G', 'E', 'L'));
    assert(spelled("UZS"@, 'U', 'Z', 'S'));
    assert(spelled("KGS"@, 'K', 'G', 'S'));
    assert(spelled("TJS"@, 'T', 'J', 'S'));
}

} // verus!
