use vstd::prelude::*;
use crate::text::{push_str_chars, same_text};

verus! {

/// Color of a language that has none of its own.
pub open spec fn default_color() -> Seq<char> {
    "#8b949e"@
}

/// Display color of a programming language, as a hexadecimal color string.
pub open spec fn language_color(language: Seq<char>) -> Seq<char> {
    if language == "JavaScript"@ {
        "#f1e05a"@
    } else if language == "TypeScript"@ {
        "#3178c6"@
    } else if language == "Python"@ {
        "#3572A5"@
    } else if language == "Java"@ {
        "#b07219"@
    } else if language == "C#"@ {
        "#178600"@
    } else if language == "C++"@ {
        "#f34b7d"@
    } else if language == "Ruby"@ {
        "#701516"@
    } else if language == "Go"@ {
        "#00ADD8"@
    } else if language == "Rust"@ {
        "#dea584"@
    } else if language == "HTML"@ {
        "#e34c26"@
    } else if language == "CSS"@ {
        "#563d7c"@
    } else if language == "PHP"@ {
        "#4F5D95"@
    } else {
        default_color()
    }
}

/// Display color of a programming language; unlisted names get the default.
pub fn get_language_color(language: &str) -> (r: String)
    ensures
        r@ == language_color(language@),
{
    if same_text(language, "JavaScript") {
        "#f1e05a".to_owned()
    } else if same_text(language, "TypeScript") {
        "#3178c6".to_owned()
    } else if same_text(language, "Python") {
        "#3572A5".to_owned()
    } else if same_text(language, "Java") {
        "#b07219".to_owned()
    } else if same_text(language, "C#") {
        "#178600".to_owned()
    } else if same_text(language, "C++") {
        "#f34b7d".to_owned()
    } else if same_text(language, "Ruby") {
        "#701516".to_owned()
    } else if same_text(language, "Go") {
        "#00ADD8".to_owned()
    } else if same_text(language, "Rust") {
        "#dea584".to_owned()
    } else if same_text(language, "HTML") {
        "#e34c26".to_owned()
    } else if same_text(language, "CSS") {
        "#563d7c".to_owned()
    } else if same_text(language, "PHP") {
        "#4F5D95".to_owned()
    } else {
        "#8b949e".to_owned()
    }
}

/// `Hello, {name}!`.
pub open spec fn greeting_of(name: Seq<char>) -> Seq<char> {
    "Hello, "@ + name + "!"@
}

/// The greeting shown to `name`.
pub fn greeting(name: &str) -> (r: String)
    ensures
        r@ == greeting_of(name@),
{
    let mut s = String::new();
    push_str_chars(&mut s, "Hello, ");
    push_str_chars(&mut s, name);
    push_str_chars(&mut s, "!");
    s
}

} // verus!
