//! HTML fragment renderers.
//!
//! Every page the gallery serves is one of five fragments: the page
//! shell, the image list (sixteen items plus the sentinel that triggers
//! the next load), a single image item, the modal, and the loading
//! indicator. Each renderer is a pure function of its inputs — plus, for
//! image items, one bump of the gallery counter per item — and its
//! contract pins the produced markup exactly, character for character,
//! through the companion `*_html` spec functions.

use vstd::prelude::*;

use crate::counter::GalleryCounter;
use crate::counter::image_url;
use crate::direction::Direction;
use crate::direction::dir_of_opt_token;
use crate::direction::dir_token;
use crate::direction::opt_str_view;
use crate::direction::parse_direction;
use crate::numbers::i32_val;
use crate::numbers::i64_to_string;
use crate::numbers::int_dec_str;
use crate::refparse::RefError;
use crate::refparse::parse_ref;
use crate::refparse::ref_base;
use crate::refparse::ref_err;
use crate::refparse::ref_id_str;
use crate::refparse::ref_valid;

verus! {

/// The loading indicator: three bouncing dots.
pub open spec fn indicator_html() -> Seq<char> {
    "<div class=\"indicator text-3xl\"><span class=\"inline-block animate-bounce\">.</span><span class=\"inline-block animate-bounce\">.</span><span class=\"inline-block animate-bounce\">.</span></div>"@
}

/// Renders the loading indicator.
pub fn indicator() -> (r: String)
    ensures
        r@ == indicator_html(),
{
    "<div class=\"indicator text-3xl\"><span class=\"inline-block animate-bounce\">.</span><span class=\"inline-block animate-bounce\">.</span><span class=\"inline-block animate-bounce\">.</span></div>".to_owned()
}

/// One image item, for counter value `n`: a tile that opens the modal on
/// click or Enter, around the placeholder image for `n`.
pub open spec fn item_html(n: nat) -> Seq<char> {
    "<li tabindex=\"1\" class=\"w-auto h-auto overflow-hidden flex rounded-xl shadow-md bg-gray-100 group hover:ring-2 hover:ring-neutral-400 hover:ring-offset-2 focus:ring-2 focus:ring-neutral-400 focus:ring-offset-2 cursor-pointer outline-none\" hx-trigger=\"click, keyup[key=='Enter']\" hx-get=\"/modal/open?url="@
        + image_url(n)
        + "\" hx-target=\"body\" hx-swap=\"beforeend\"><img class=\"w-full h-full object-cover aspect-square transition duration-[2s] group-hover:scale-110 group-focus:scale-110\" src=\""@
        + image_url(n) + "\" alt=\"\"/></li>"@
}

/// Renders one image item, bumping the counter once.
pub fn image_item(c: &mut GalleryCounter) -> (r: String)
    requires
        old(c).count < u32::MAX,
    ensures
        final(c).count == old(c).count + 1,
        r@ == item_html((old(c).count + 1) as nat),
{
    let url = c.next_image_url();
    let mut s =
        "<li tabindex=\"1\" class=\"w-auto h-auto overflow-hidden flex rounded-xl shadow-md bg-gray-100 group hover:ring-2 hover:ring-neutral-400 hover:ring-offset-2 focus:ring-2 focus:ring-neutral-400 focus:ring-offset-2 cursor-pointer outline-none\" hx-trigger=\"click, keyup[key=='Enter']\" hx-get=\"/modal/open?url=".to_owned();
    s.append(url.as_str());
    s.append(
        "\" hx-target=\"body\" hx-swap=\"beforeend\"><img class=\"w-full h-full object-cover aspect-square transition duration-[2s] group-hover:scale-110 group-focus:scale-110\" src=\"",
    );
    s.append(url.as_str());
    s.append("\" alt=\"\"/></li>");
    s
}

/// The sentinel list entry: once scrolled into view it fetches the next
/// list fragment and replaces itself with the response.
pub open spec fn sentinel_html() -> Seq<char> {
    "<li class=\"w-auto h-auto overflow-hidden flex rounded-xl mt-4 col-span-full justify-center\" id=\"indicator-container\" hx-trigger=\"intersect delay:0.75s\" hx-get=\"/more\" hx-target=\"this\" hx-swap=\"outerHTML\">"@
        + indicator_html() + "</li>"@
}

/// Renders the sentinel list entry.
fn sentinel() -> (r: String)
    ensures
        r@ == sentinel_html(),
{
    let mut s =
        "<li class=\"w-auto h-auto overflow-hidden flex rounded-xl mt-4 col-span-full justify-center\" id=\"indicator-container\" hx-trigger=\"intersect delay:0.75s\" hx-get=\"/more\" hx-target=\"this\" hx-swap=\"outerHTML\">".to_owned();
    let ind = indicator();
    s.append(ind.as_str());
    s.append("</li>");
    s
}

/// The first `k` image items rendered after counter value `c`.
pub open spec fn items_html(c: nat, k: nat) -> Seq<char>
    decreases k,
{
    if k == 0 {
        Seq::<char>::empty()
    } else {
        items_html(c, (k - 1) as nat) + item_html(c + k)
    }
}

/// The list fragment: exactly sixteen image items followed by exactly one
/// sentinel entry.
pub open spec fn list_html(c: nat) -> Seq<char> {
    items_html(c, 16) + sentinel_html()
}

/// Renders the list fragment, bumping the counter once per item.
pub fn image_list(c: &mut GalleryCounter) -> (r: String)
    requires
        old(c).count + 16 <= u32::MAX,
    ensures
        final(c).count == old(c).count + 16,
        r@ == list_html(old(c).count as nat),
{
    let ghost c0: nat = c.count as nat;
    let mut s = String::new();
    let mut i: u32 = 0;
    while i < 16
        invariant
            i <= 16,
            c.count == c0 + i,
            c0 + 16 <= u32::MAX,
            s@ == items_html(c0, i as nat),
        decreases 16 - i,
    {
        let item = image_item(c);
        s.append(item.as_str());
        i = i + 1;
        proof {
            assert(items_html(c0, i as nat) == items_html(c0, (i - 1) as nat) + item_html(
                c0 + i as nat,
            ));
        }
    }
    let sent = sentinel();
    s.append(sent.as_str());
    s
}

/// The page shell: head, title, stylesheet, heading, the initial list
/// fragment, and the script tag for the client-side interaction library.
pub open spec fn app_html(c: nat) -> Seq<char> {
    "<head><title>HTMX Infinite Scroll Gallery</title><link rel=\"stylesheet\" href=\"/static/output.css\"/></head><body class=\"max-w-7xl m-auto px-8 lg:px-12 pb-12 pt-20 bg-gray-200 font-poppins\"><main class=\"w-full flex flex-col items-center gap-2 lg:gap-4 space-y-10\"><h1 class=\"text-5xl tracking-wide font-semibold\">HTMX Infinite Scroll Gallery</h1><ul id=\"images\" class=\"w-full grid grid-cols-2 md:grid-cols-3 lg:grid-cols-4 gap-3\">"@
        + list_html(c)
        + "</ul></main><script src=\"https://unpkg.com/htmx.org@1.9.3/dist/htmx.min.js\"></script></body>"@
}

/// Renders the page shell with the initial sixteen images.
pub fn app(c: &mut GalleryCounter) -> (r: String)
    requires
        old(c).count + 16 <= u32::MAX,
    ensures
        final(c).count == old(c).count + 16,
        r@ == app_html(old(c).count as nat),
{
    let mut s =
        "<head><title>HTMX Infinite Scroll Gallery</title><link rel=\"stylesheet\" href=\"/static/output.css\"/></head><body class=\"max-w-7xl m-auto px-8 lg:px-12 pb-12 pt-20 bg-gray-200 font-poppins\"><main class=\"w-full flex flex-col items-center gap-2 lg:gap-4 space-y-10\"><h1 class=\"text-5xl tracking-wide font-semibold\">HTMX Infinite Scroll Gallery</h1><ul id=\"images\" class=\"w-full grid grid-cols-2 md:grid-cols-3 lg:grid-cols-4 gap-3\">".to_owned();
    let list = image_list(c);
    s.append(list.as_str());
    s.append(
        "</ul></main><script src=\"https://unpkg.com/htmx.org@1.9.3/dist/htmx.min.js\"></script></body>",
    );
    s
}

/// The element id of the modal content, which varies with the navigation
/// direction so that CSS transitions can animate the slide.
pub open spec fn modal_id_html(dir: Option<Direction>) -> Seq<char> {
    match dir {
        None => "modal-content"@,
        Some(d) => "modal-content-"@ + dir_token(d),
    }
}

/// Renders the modal content element id.
fn modal_id(dir: Option<Direction>) -> (r: String)
    ensures
        r@ == modal_id_html(dir),
{
    match dir {
        None => "modal-content".to_owned(),
        Some(d) => {
            let mut s = "modal-content-".to_owned();
            s.append(d.as_str());
            s
        },
    }
}

/// The modal fragment for a valid image reference: backdrop, previous and
/// next navigation buttons targeting the adjacent ids, the image itself,
/// and a close button.
pub open spec fn modal_html(url: Seq<char>, dir: Option<Direction>) -> Seq<char> {
    let base = ref_base(url);
    let v = i32_val(ref_id_str(url));
    "<div class=\"fixed w-full h-full top-0 left-0 focus:opacity-75 overflow-hidden\" hx-target=\"this\" hx-swap=\"outerHTML\"><div class=\"w-full h-full bg-gray-800 opacity-75\" hx-on=\"click: this.parentElement.outerHTML = ''\"></div><button class=\"fixed text-2xl top-1/2 -translate-y-1/2 left-10 cursor-pointer text-white p-2 aspect-square rounded-full ring-1 ring-gray-50 active:bg-gray-500\" hx-trigger=\"click\" hx-get=\"/modal/open?dir=left&url="@
        + base + "?"@ + int_dec_str(v - 1)
        + "\"><svg fill=\"none\" viewBox=\"0 0 24 24\" stroke-width=\"1.5\" stroke=\"currentColor\" class=\"w-6 h-6\"><path stroke-linecap=\"round\" stroke-linejoin=\"round\" d=\"M15.75 19.5L8.25 12l7.5-7.5\"/></svg></button><button class=\"fixed text-2xl top-1/2 -translate-y-1/2 right-10 cursor-pointer text-white p-2 aspect-square rounded-full ring-1 ring-gray-50 active:bg-gray-500\" hx-trigger=\"click\" hx-get=\"/modal/open?dir=right&url="@
        + base + "?"@ + int_dec_str(v + 1) + "\"><svg fill=\"none\" viewBox=\"0 0 24 24\" stroke-width=\"1.5\" stroke=\"currentColor\" class=\"w-6 h-6\"><path stroke-linecap=\"round\" stroke-linejoin=\"round\" d=\"M8.25 4.5l7.5 7.5-7.5 7.5\"/></svg></button><div id=\""@
        + modal_id_html(dir)
        + "\" class=\"fixed top-1/2 left-1/2 -translate-x-1/2 -translate-y-1/2 w-4/5 lg:w-1/2 max-w-3xl aspect-square rounded-md shadow-md overflow-hidden outline-none\" tabindex=\"1\" autofocus><img class=\"w-full h-full object-cover aspect-square\" src=\""@
        + url
        + "\" alt=\"\"/></div><button class=\"fixed top-6 right-6 rounded-full bg-white shadow-xl w-8 h-8 flex items-center justify-center font-light text-xl text-neutral-700 cursor-pointer\" hx-on=\"click: this.parentElement.outerHTML = ''\"><svg fill=\"none\" viewBox=\"0 0 24 24\" stroke-width=\"1.5\" stroke=\"currentColor\" class=\"w-6 h-6\"><path stroke-linecap=\"round\" stroke-linejoin=\"round\" d=\"M6 18L18 6M6 6l12 12\"/></svg></button></div>"@
}

/// Renders the modal fragment, rejecting malformed image references.
pub fn modal(url: &str, dir: Option<Direction>) -> (r: Result<String, RefError>)
    ensures
        r is Ok <==> ref_valid(url@),
        r matches Ok(h) ==> h@ == modal_html(url@, dir),
        r matches Err(e) ==> e == ref_err(url@),
{
    let parts: (String, i32) = match parse_ref(url) {
        Ok(p) => p,
        Err(e) => {
            return Err(e);
        },
    };
    let base = parts.0;
    let id: i32 = parts.1;
    let prev = i64_to_string(id as i64 - 1);
    let next = i64_to_string(id as i64 + 1);
    let mid = modal_id(dir);
    let mut s =
        "<div class=\"fixed w-full h-full top-0 left-0 focus:opacity-75 overflow-hidden\" hx-target=\"this\" hx-swap=\"outerHTML\"><div class=\"w-full h-full bg-gray-800 opacity-75\" hx-on=\"click: this.parentElement.outerHTML = ''\"></div><button class=\"fixed text-2xl top-1/2 -translate-y-1/2 left-10 cursor-pointer text-white p-2 aspect-square rounded-full ring-1 ring-gray-50 active:bg-gray-500\" hx-trigger=\"click\" hx-get=\"/modal/open?dir=left&url=".to_owned();
    s.append(base.as_str());
    s.append("?");
    s.append(prev.as_str());
    s.append(
        "\"><svg fill=\"none\" viewBox=\"0 0 24 24\" stroke-width=\"1.5\" stroke=\"currentColor\" class=\"w-6 h-6\"><path stroke-linecap=\"round\" stroke-linejoin=\"round\" d=\"M15.75 19.5L8.25 12l7.5-7.5\"/></svg></button><button class=\"fixed text-2xl top-1/2 -translate-y-1/2 right-10 cursor-pointer text-white p-2 aspect-square rounded-full ring-1 ring-gray-50 active:bg-gray-500\" hx-trigger=\"click\" hx-get=\"/modal/open?dir=right&url=",
    );
    s.append(base.as_str());
    s.append("?");
    s.append(next.as_str());
    s.append(
        "\"><svg fill=\"none\" viewBox=\"0 0 24 24\" stroke-width=\"1.5\" stroke=\"currentColor\" class=\"w-6 h-6\"><path stroke-linecap=\"round\" stroke-linejoin=\"round\" d=\"M8.25 4.5l7.5 7.5-7.5 7.5\"/></svg></button><div id=\"",
    );
    s.append(mid.as_str());
    s.append(
        "\" class=\"fixed top-1/2 left-1/2 -translate-x-1/2 -translate-y-1/2 w-4/5 lg:w-1/2 max-w-3xl aspect-square rounded-md shadow-md overflow-hidden outline-none\" tabindex=\"1\" autofocus><img class=\"w-full h-full object-cover aspect-square\" src=\"",
    );
    s.append(url);
    s.append(
        "\" alt=\"\"/></div><button class=\"fixed top-6 right-6 rounded-full bg-white shadow-xl w-8 h-8 flex items-center justify-center font-light text-xl text-neutral-700 cursor-pointer\" hx-on=\"click: this.parentElement.outerHTML = ''\"><svg fill=\"none\" viewBox=\"0 0 24 24\" stroke-width=\"1.5\" stroke=\"currentColor\" class=\"w-6 h-6\"><path stroke-linecap=\"round\" stroke-linejoin=\"round\" d=\"M6 18L18 6M6 6l12 12\"/></svg></button></div>",
    );
    Ok(s)
}

/// The full modal route: the raw `url` and `dir` query parameters in,
/// HTML out, or a structured error where the reference is malformed (an
/// absent `url` parameter arrives here as the empty string and is
/// rejected the same way).
pub fn modal_response(url: &str, dir: Option<&str>) -> (r: Result<String, RefError>)
    ensures
        r is Ok <==> ref_valid(url@),
        r matches Ok(h) ==> h@ == modal_html(url@, dir_of_opt_token(opt_str_view(dir))),
        r matches Err(e) ==> e == ref_err(url@),
{
    let d = parse_direction(dir);
    modal(url, d)
}

} // verus!
