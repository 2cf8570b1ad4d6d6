//! The input validator: decides which external strings may be forwarded to
//! the UI.

use vstd::prelude::*;

verus! {

/// Whether `c` has the Unicode `White_Space` property, as
/// `char::is_whitespace` decides it. The set of such characters is fixed by
/// the Unicode tables of the standard library and is not spelled out here.
pub uninterp spec fn white_space(c: char) -> bool;

/// `s` without its leading white space.
pub open spec fn trim_start(s: Seq<char>) -> Seq<char>
    decreases s.len(),
{
    if s.len() > 0 && white_space(s.first()) {
        trim_start(s.drop_first())
    } else {
        s
    }
}

/// `s` without its trailing white space.
pub open spec fn trim_end(s: Seq<char>) -> Seq<char>
    decreases s.len(),
{
    if s.len() > 0 && white_space(s.last()) {
        trim_end(s.drop_last())
    } else {
        s
    }
}

/// `s` without its leading and trailing white space.
pub open spec fn trimmed(s: Seq<char>) -> Seq<char> {
    trim_end(trim_start(s))
}

/// Whether `needle` occurs in `text` as a contiguous run of characters.
pub open spec fn occurs_in(needle: Seq<char>, text: Seq<char>) -> bool {
    exists|i: int|
        0 <= i && i + needle.len() <= text.len() && #[trigger] text.subrange(
            i,
            i + needle.len(),
        ) == needle
}

/// The scheme prefix of mail links.
pub open spec fn mailto_prefix() -> Seq<char> {
    seq!['m', 'a', 'i', 'l', 't', 'o', ':']
}

/// The scheme prefix of the application's own links.
pub open spec fn app_prefix() -> Seq<char> {
    seq!['f', 'o', 'r', 'w', 'a', 'r', 'd', 'e', 'm', 'a', 'i', 'l', ':']
}

/// The separator whose presence makes an argument look like a URL.
pub open spec fn scheme_separator() -> Seq<char> {
    seq![':', '/', '/']
}

/// Whether `text` begins with one of the two allowed scheme prefixes.
pub open spec fn has_allowed_scheme(text: Seq<char>) -> bool {
    mailto_prefix().is_prefix_of(text) || app_prefix().is_prefix_of(text)
}

/// Whether `url` is a deep link that may be forwarded: after trimming, it
/// begins with an allowed scheme prefix.
pub open spec fn valid_deep_link(url: Seq<char>) -> bool {
    has_allowed_scheme(trimmed(url))
}

/// Whether a launch argument may be forwarded: it is a valid deep link, or
/// it does not look like a URL at all.
pub open spec fn forwardable_arg(arg: Seq<char>) -> bool {
    valid_deep_link(arg) || !occurs_in(scheme_separator(), arg)
}

/// Calls `str::trim`. Trusted: the result is the argument with its leading
/// and trailing characters of the `White_Space` property removed, and
/// nothing else changed; so it neither begins nor ends with such a
/// character.
#[verifier::external_body]
fn trim(s: &str) -> (r: &str)
    ensures
        r@ == trimmed(s@),
        r@.len() > 0 ==> !white_space(r@.first()) && !white_space(r@.last()),
{
    s.trim()
}

/// Calls `str::starts_with` with a string pattern. Trusted: the answer is
/// whether `prefix` is a prefix of `s`.
#[verifier::external_body]
fn starts_with(s: &str, prefix: &str) -> (b: bool)
    ensures
        b == prefix@.is_prefix_of(s@),
{
    s.starts_with(prefix)
}

/// Calls `str::contains` with a string pattern. Trusted: the answer is
/// whether `needle` occurs somewhere in `s`.
#[verifier::external_body]
fn contains(s: &str, needle: &str) -> (b: bool)
    ensures
        b == occurs_in(needle@, s@),
{
    s.contains(needle)
}

proof fn lemma_prefix_literals()
    ensures
        "mailto:"@ == mailto_prefix(),
        "forwardemail:"@ == app_prefix(),
        "://"@ == scheme_separator(),
{
    reveal_strlit("mailto:");
    reveal_strlit("forwardemail:");
    reveal_strlit("://");
    assert("mailto:"@ =~= mailto_prefix());
    assert("forwardemail:"@ =~= app_prefix());
    assert("://"@ =~= scheme_separator());
}

/// Decides whether an already trimmed string begins with `mailto:` or
/// `forwardemail:`. No other scheme is accepted.
pub fn starts_with_allowed_scheme(text: &str) -> (b: bool)
    ensures
        b == has_allowed_scheme(text@),
{
    proof {
        lemma_prefix_literals();
    }
    starts_with(text, "mailto:") || starts_with(text, "forwardemail:")
}

/// Decides whether an external URL may be forwarded to the UI: leading and
/// trailing white space is ignored, and what remains must begin with
/// `mailto:` or `forwardemail:`.
pub fn is_valid_deep_link(url: &str) -> (b: bool)
    ensures
        b == valid_deep_link(url@),
{
    starts_with_allowed_scheme(trim(url))
}

/// Decides whether a raw launch argument may be forwarded: arguments that
/// contain `://` must be valid deep links, all others pass.
pub fn is_forwardable_arg(arg: &str) -> (b: bool)
    ensures
        b == forwardable_arg(arg@),
{
    proof {
        lemma_prefix_literals();
    }
    is_valid_deep_link(arg) || !contains(arg, "://")
}

/// The texts of a list of strings, in order.
pub open spec fn texts(items: Seq<String>) -> Seq<Seq<char>> {
    items.map_values(|s: String| s@)
}

/// The rule applied to each deep link of a batch.
pub open spec fn deep_link_rule() -> spec_fn(Seq<char>) -> bool {
    |url: Seq<char>| valid_deep_link(url)
}

/// The rule applied to each raw launch argument.
pub open spec fn launch_arg_rule() -> spec_fn(Seq<char>) -> bool {
    |arg: Seq<char>| forwardable_arg(arg)
}

/// The deep links of `urls` that may be forwarded, in their order.
pub open spec fn allowed_deep_links(urls: Seq<Seq<char>>) -> Seq<Seq<char>> {
    urls.filter(deep_link_rule())
}

/// The launch arguments of `args` that may be forwarded, in their order.
pub open spec fn allowed_launch_args(args: Seq<Seq<char>>) -> Seq<Seq<char>> {
    args.filter(launch_arg_rule())
}

/// Of a batch of URLs only valid deep links are kept, and no more than
/// the batch holds.
pub proof fn lemma_allowed_deep_links_valid(urls: Seq<Seq<char>>)
    ensures
        allowed_deep_links(urls).len() <= urls.len(),
        forall|i: int|
            0 <= i < allowed_deep_links(urls).len() ==> valid_deep_link(
                #[trigger] allowed_deep_links(urls)[i],
            ),
{
    urls.lemma_filter_len(deep_link_rule());
    assert forall|i: int| 0 <= i < allowed_deep_links(urls).len() implies valid_deep_link(
        #[trigger] allowed_deep_links(urls)[i],
    ) by {
        urls.lemma_filter_pred(deep_link_rule(), i);
    }
}

/// Of the launch arguments only forwardable ones are kept, and no more
/// than were given.
pub proof fn lemma_allowed_launch_args_forwardable(args: Seq<Seq<char>>)
    ensures
        allowed_launch_args(args).len() <= args.len(),
        forall|i: int|
            0 <= i < allowed_launch_args(args).len() ==> forwardable_arg(
                #[trigger] allowed_launch_args(args)[i],
            ),
{
    args.lemma_filter_len(launch_arg_rule());
    assert forall|i: int| 0 <= i < allowed_launch_args(args).len() implies forwardable_arg(
        #[trigger] allowed_launch_args(args)[i],
    ) by {
        args.lemma_filter_pred(launch_arg_rule(), i);
    }
}

/// A batch in which every URL is a valid deep link is kept whole, and a
/// batch in which none is valid is dropped whole.
pub proof fn lemma_allowed_deep_links_extremes(urls: Seq<Seq<char>>)
    ensures
        (forall|i: int| 0 <= i < urls.len() ==> valid_deep_link(#[trigger] urls[i]))
            ==> allowed_deep_links(urls) == urls,
        (forall|i: int| 0 <= i < urls.len() ==> !valid_deep_link(#[trigger] urls[i]))
            ==> allowed_deep_links(urls).len() == 0,
    decreases urls.len(),
{
    reveal(Seq::filter);
    if urls.len() > 0 {
        let front = urls.drop_last();
        lemma_allowed_deep_links_extremes(front);
        assert(forall|i: int| 0 <= i < front.len() ==> front[i] == urls[i]);
        if forall|i: int| 0 <= i < urls.len() ==> valid_deep_link(#[trigger] urls[i]) {
            assert(front.push(urls.last()) =~= urls);
        }
    }
}

proof fn lemma_filter_keeps_all(items: Seq<Seq<char>>, pred: spec_fn(Seq<char>) -> bool)
    requires
        forall|i: int| 0 <= i < items.len() ==> pred(#[trigger] items[i]),
    ensures
        items.filter(pred) == items,
    decreases items.len(),
{
    reveal(Seq::filter);
    if items.len() > 0 {
        let front = items.drop_last();
        assert(forall|i: int| 0 <= i < front.len() ==> front[i] == items[i]);
        lemma_filter_keeps_all(front, pred);
        assert(front.push(items.last()) =~= items);
    }
}

/// What a filter has kept it keeps again, whole and in order; and what
/// is kept as a deep link is also kept as a launch argument.
pub proof fn lemma_filters_idempotent(items: Seq<Seq<char>>)
    ensures
        allowed_deep_links(allowed_deep_links(items)) == allowed_deep_links(items),
        allowed_launch_args(allowed_launch_args(items)) == allowed_launch_args(items),
        allowed_launch_args(allowed_deep_links(items)) == allowed_deep_links(items),
{
    lemma_allowed_deep_links_valid(items);
    lemma_allowed_launch_args_forwardable(items);
    lemma_filter_keeps_all(allowed_deep_links(items), deep_link_rule());
    lemma_filter_keeps_all(allowed_launch_args(items), launch_arg_rule());
    lemma_filter_keeps_all(allowed_deep_links(items), launch_arg_rule());
}

/// A string that needs no trimming is a valid deep link exactly if it
/// begins with an allowed scheme prefix; and every valid deep link may be
/// forwarded as a launch argument.
pub proof fn lemma_valid_deep_link_cases(url: Seq<char>)
    ensures
        url.len() > 0 && !white_space(url.first()) && !white_space(url.last()) ==> (valid_deep_link(
            url,
        ) <==> has_allowed_scheme(url)),
        url.len() == 0 ==> !valid_deep_link(url),
        valid_deep_link(url) ==> forwardable_arg(url),
{
    reveal_with_fuel(trim_start, 2);
    reveal_with_fuel(trim_end, 2);
    if url.len() == 0 {
        assert(trimmed(url) =~= url);
        assert(!mailto_prefix().is_prefix_of(url));
        assert(!app_prefix().is_prefix_of(url));
    }
}

spec fn rule(launch: bool) -> spec_fn(Seq<char>) -> bool {
    if launch {
        launch_arg_rule()
    } else {
        deep_link_rule()
    }
}

fn keep_allowed(items: &Vec<String>, launch: bool) -> (kept: Vec<String>)
    ensures
        texts(kept@) == texts(items@).filter(rule(launch)),
{
    let mut kept: Vec<String> = Vec::new();
    let mut i: usize = 0;
    proof {
        reveal(Seq::filter);
        assert(texts(items@).take(0) =~= Seq::<Seq<char>>::empty());
        assert(texts(kept@) =~= Seq::<Seq<char>>::empty());
    }
    while i < items.len()
        invariant
            i <= items.len(),
            texts(kept@) == texts(items@).take(i as int).filter(rule(launch)),
        decreases items.len() - i,
    {
        let item = &items[i];
        let pass = if launch {
            is_forwardable_arg(item.as_str())
        } else {
            is_valid_deep_link(item.as_str())
        };
        proof {
            let seen = texts(items@).take(i as int);
            assert(texts(items@).take(i + 1) =~= seen.push(item@));
            seen.lemma_filter_push(item@, rule(launch));
        }
        if pass {
            let ghost before = kept@;
            kept.push(item.clone());
            proof {
                assert(texts(kept@) =~= texts(before).push(item@));
            }
        }
        i += 1;
    }
    proof {
        assert(texts(items@).take(items.len() as int) =~= texts(items@));
    }
    kept
}

/// Keeps, in order, the URLs of a batch that are valid deep links.
pub fn filter_deep_links(urls: &Vec<String>) -> (kept: Vec<String>)
    ensures
        texts(kept@) == allowed_deep_links(texts(urls@)),
{
    keep_allowed(urls, false)
}

/// Keeps, in order, the launch arguments that may be forwarded: valid deep
/// links and arguments without `://`.
pub fn filter_launch_args(args: &Vec<String>) -> (kept: Vec<String>)
    ensures
        texts(kept@) == allowed_launch_args(texts(args@)),
{
    keep_allowed(args, true)
}

} // verus!
