//! What each page renders: the counter page's heading and buttons, and
//! the site shell's stylesheet link and header.
//!
//! Markup is modelled as text. Every render function's result is pinned,
//! character for character, to a spec-level description of the page.

use vstd::prelude::*;
use vstd::string::StringExecFns;

use crate::counter::{run_clicks, run_clicks_spec, Click, Counter};

verus! {

/// The decimal digit character for one digit value.
pub open spec fn digit_char(d: int) -> char {
    if d == 0 {
        '0'
    } else if d == 1 {
        '1'
    } else if d == 2 {
        '2'
    } else if d == 3 {
        '3'
    } else if d == 4 {
        '4'
    } else if d == 5 {
        '5'
    } else if d == 6 {
        '6'
    } else if d == 7 {
        '7'
    } else if d == 8 {
        '8'
    } else {
        '9'
    }
}

/// The decimal digits of a natural number, most significant first, with
/// no leading zero except for the number 0 itself.
pub open spec fn dec_digits(n: nat) -> Seq<char>
    decreases n,
{
    if n < 10 {
        seq![digit_char(n as int)]
    } else {
        dec_digits(n / 10) + seq![digit_char((n % 10) as int)]
    }
}

/// The decimal rendering of an integer: a minus sign for negative
/// values, then the digits of the magnitude.
pub open spec fn dec_int(v: int) -> Seq<char> {
    if v < 0 {
        seq!['-'] + dec_digits((-v) as nat)
    } else {
        dec_digits(v as nat)
    }
}

/// The one-character string for one digit value.
fn digit_str(d: u64) -> (s: &'static str)
    requires
        d < 10,
    ensures
        s@ == seq![digit_char(d as int)],
{
    proof {
        reveal_strlit("0");
        reveal_strlit("1");
        reveal_strlit("2");
        reveal_strlit("3");
        reveal_strlit("4");
        reveal_strlit("5");
        reveal_strlit("6");
        reveal_strlit("7");
        reveal_strlit("8");
        reveal_strlit("9");
    }
    let s = match d {
        0 => "0",
        1 => "1",
        2 => "2",
        3 => "3",
        4 => "4",
        5 => "5",
        6 => "6",
        7 => "7",
        8 => "8",
        _ => "9",
    };
    proof {
        assert(s@ =~= seq![digit_char(d as int)]);
    }
    s
}

/// The decimal digits of an unsigned value, most significant first.
pub fn u64_digits(n: u64) -> (s: String)
    ensures
        s@ == dec_digits(n as nat),
    decreases n,
{
    if n < 10 {
        String::from_str(digit_str(n))
    } else {
        let mut s = u64_digits(n / 10);
        s.append(digit_str(n % 10));
        s
    }
}

/// The decimal rendering of a counter value, exactly as `dec_int`
/// describes it.
pub fn i64_to_string(v: i64) -> (s: String)
    ensures
        s@ == dec_int(v as int),
{
    if v >= 0 {
        u64_digits(v as u64)
    } else {
        let mag: u64 = ((-(v + 1)) as u64) + 1;
        proof {
            assert(mag == -(v as int));
            reveal_strlit("-");
        }
        let mut s = String::from_str("-");
        let digits = u64_digits(mag);
        s.append(digits.as_str());
        proof {
            assert(s@ =~= dec_int(v as int));
        }
        s
    }
}

/// The text of the counter page's heading for a given counter value.
pub open spec fn heading_text(v: int) -> Seq<char> {
    "High-Five counter: "@ + dec_int(v)
}

/// Render the counter page's heading text for the current value.
pub fn counter_heading(v: i64) -> (s: String)
    ensures
        s@ == heading_text(v as int),
{
    let mut s = String::from_str("High-Five counter: ");
    let digits = i64_to_string(v);
    s.append(digits.as_str());
    s
}

/// The counter page's markup: the heading, then the two buttons with
/// their literal labels.
pub open spec fn home_markup(v: int) -> Seq<char> {
    "<h1>"@ + heading_text(v) + "</h1><button>Up high!</button><button>Down low!</button>"@
}

/// Render the counter page for the current counter value.
pub fn render_home(v: i64) -> (s: String)
    ensures
        s@ == home_markup(v as int),
{
    let mut s = String::from_str("<h1>");
    let heading = counter_heading(v);
    s.append(heading.as_str());
    s.append("</h1><button>Up high!</button><button>Down low!</button>");
    proof {
        assert(s@ =~= home_markup(v as int));
    }
    s
}

/// Mount the counter page: a fresh counter reading 0, and the page as
/// first rendered, heading included.
pub fn mount_home() -> (r: (Counter, String))
    ensures
        r.0.value == 0,
        r.1@ == home_markup(0),
{
    let c = Counter::new();
    let page = render_home(c.get());
    (c, page)
}

/// Deliver a sequence of clicks to a freshly mounted counter page and
/// render the page they leave behind: the heading displays exactly the
/// value the clicks ran the counter to.
pub fn page_after_clicks(clicks: &Vec<Click>) -> (s: String)
    ensures
        s@ == home_markup(run_clicks_spec(0, clicks@)),
{
    let c = run_clicks(clicks);
    render_home(c.get())
}

/// The site shell's header: one hyperlink, labelled "lightmix",
/// pointing back to the root path.
pub open spec fn header_markup() -> Seq<char> {
    "<header><h1><a href=\"/\">lightmix</a></h1></header>"@
}

/// Render the site shell's header. The render takes no input at all, so
/// its markup is the same, byte for byte, on every mount.
pub fn render_header() -> (s: String)
    ensures
        s@ == header_markup(),
{
    String::from_str("<header><h1><a href=\"/\">lightmix</a></h1></header>")
}

/// Re-mounting the site shell is idempotent: any two renders of the
/// header agree, byte for byte.
pub proof fn lemma_header_render_idempotent(a: Seq<char>, b: Seq<char>)
    requires
        a == header_markup(),
        b == header_markup(),
    ensures
        a == b,
{
}

/// The stylesheet link the site shell attaches to the document head,
/// referring to the bundled asset by its fixed path.
pub open spec fn stylesheet_link_markup() -> Seq<char> {
    "<link rel=\"stylesheet\" href=\"/assets/main.css\">"@
}

/// The site shell's whole document: the stylesheet link attached to the
/// head, then the header.
pub open spec fn site_document() -> Seq<char> {
    stylesheet_link_markup() + header_markup()
}

/// Render the site shell's document: stylesheet link, then header.
pub fn render_site() -> (s: String)
    ensures
        s@ == site_document(),
{
    let mut s = String::from_str("<link rel=\"stylesheet\" href=\"/assets/main.css\">");
    s.append("<header><h1><a href=\"/\">lightmix</a></h1></header>");
    s
}

} // verus!
