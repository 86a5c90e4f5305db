use vstd::prelude::*;

use crate::error::FetchError;
use crate::method::HttpMethod;
use crate::redirect::RedirectMode;
use crate::request::HeaderPair;

verus! {

/// How fetch reads its first argument (the resource).
#[derive(Clone, Copy, Debug, PartialEq, Eq, Structural)]
pub enum ResourceRole {
    /// An object whose properties are read as options (a `Request`, or an
    /// object without a `toString` function).
    Options,
    /// An object whose `toString` function gives the URL.
    UrlFromToString,
    /// A value that is converted to a string to give the URL.
    UrlFromValue,
}

/// The role of the resource: a `Request` object gives options; another
/// object gives its URL through `toString` when it has that function, else
/// options; any other value is the URL.
pub open spec fn spec_resource_role(
    is_object: bool,
    is_request_instance: bool,
    has_to_string: bool,
) -> ResourceRole {
    if !is_object {
        ResourceRole::UrlFromValue
    } else if is_request_instance {
        ResourceRole::Options
    } else if has_to_string {
        ResourceRole::UrlFromToString
    } else {
        ResourceRole::Options
    }
}

/// Decides how the resource is read; `has_to_string` is only consulted for
/// an object that is not a `Request`.
pub fn resource_role(is_object: bool, is_request_instance: bool, has_to_string: bool) -> (r:
    ResourceRole)
    ensures
        r == spec_resource_role(is_object, is_request_instance, has_to_string),
{
    if !is_object {
        ResourceRole::UrlFromValue
    } else if is_request_instance {
        ResourceRole::Options
    } else if has_to_string {
        ResourceRole::UrlFromToString
    } else {
        ResourceRole::Options
    }
}

/// A `Request` object is always read as options, whether or not it has a
/// `toString` function; another object gives its URL through `toString`
/// exactly when it has that function, and is read as options otherwise; a
/// value that is not an object is always converted to the URL.
pub proof fn lemma_resource_role_cases(
    is_object: bool,
    is_request_instance: bool,
    has_to_string: bool,
)
    ensures
        is_object && is_request_instance ==> spec_resource_role(
            is_object,
            is_request_instance,
            has_to_string,
        ) == ResourceRole::Options,
        is_object && !is_request_instance ==> (spec_resource_role(
            is_object,
            is_request_instance,
            has_to_string,
        ) == ResourceRole::UrlFromToString <==> has_to_string),
        is_object ==> spec_resource_role(is_object, is_request_instance, has_to_string)
            != ResourceRole::UrlFromValue,
        !is_object ==> spec_resource_role(is_object, is_request_instance, has_to_string)
            == ResourceRole::UrlFromValue,
{
}

/// Where an option is read from.
#[derive(Clone, Copy, Debug, PartialEq, Eq, Structural)]
pub enum OptionSource {
    /// The options object given as the second argument.
    Arguments,
    /// The resource, when it is read as options.
    Resource,
}

/// The progress of reading one option.
pub enum OptionLookup<V> {
    /// Read the option from this source next.
    Read(OptionSource),
    /// The option has this value.
    Found(V),
    /// The option is not given.
    Missing,
}

/// Where reading an option starts: the arguments' options first, then the
/// resource's.
pub fn option_lookup_start<V>(has_arguments: bool, has_resource: bool) -> (r: OptionLookup<V>)
    ensures
        has_arguments ==> r == OptionLookup::<V>::Read(OptionSource::Arguments),
        !has_arguments && has_resource ==> r == OptionLookup::<V>::Read(OptionSource::Resource),
        !has_arguments && !has_resource ==> r == OptionLookup::<V>::Missing,
{
    if has_arguments {
        OptionLookup::Read(OptionSource::Arguments)
    } else if has_resource {
        OptionLookup::Read(OptionSource::Resource)
    } else {
        OptionLookup::Missing
    }
}

/// The step after reading an option from `source`: a value is the option's
/// value; no value in the arguments goes on to the resource, if there is one.
pub open spec fn spec_option_lookup_next<V>(
    source: OptionSource,
    read: Option<V>,
    has_resource: bool,
) -> OptionLookup<V> {
    match read {
        Some(v) => OptionLookup::Found(v),
        None => if source == OptionSource::Arguments && has_resource {
            OptionLookup::Read(OptionSource::Resource)
        } else {
            OptionLookup::Missing
        },
    }
}

/// Takes the step after reading an option from `source`.
pub fn option_lookup_next<V>(source: OptionSource, read: Option<V>, has_resource: bool) -> (r:
    OptionLookup<V>)
    ensures
        r == spec_option_lookup_next(source, read, has_resource),
{
    match read {
        Some(v) => OptionLookup::Found(v),
        None => {
            if source == OptionSource::Arguments && has_resource {
                OptionLookup::Read(OptionSource::Resource)
            } else {
                OptionLookup::Missing
            }
        },
    }
}

/// The value of an option, given what the arguments' options and the
/// resource give (the outer `None` when there is no such object).
pub open spec fn spec_option_value<V>(
    from_arguments: Option<Option<V>>,
    from_resource: Option<Option<V>>,
) -> Option<V> {
    match from_arguments {
        Some(Some(v)) => Some(v),
        _ => match from_resource {
            Some(Some(v)) => Some(v),
            _ => None,
        },
    }
}

/// Reading an option by these steps gives the arguments' value when they
/// give one, else the resource's; the resource is read only when the
/// arguments give no value, and each object at most once.
pub proof fn lemma_option_lookup<V>(
    from_arguments: Option<Option<V>>,
    from_resource: Option<Option<V>>,
)
    ensures
        ({
            let has_args = from_arguments is Some;
            let has_res = from_resource is Some;
            let first: OptionLookup<V> = if has_args {
                OptionLookup::Read(OptionSource::Arguments)
            } else if has_res {
                OptionLookup::Read(OptionSource::Resource)
            } else {
                OptionLookup::Missing
            };
            let second: OptionLookup<V> = match first {
                OptionLookup::Read(OptionSource::Arguments) => spec_option_lookup_next(
                    OptionSource::Arguments,
                    from_arguments->0,
                    has_res,
                ),
                OptionLookup::Read(OptionSource::Resource) => spec_option_lookup_next(
                    OptionSource::Resource,
                    from_resource->0,
                    has_res,
                ),
                other => other,
            };
            let third: OptionLookup<V> = match second {
                OptionLookup::Read(OptionSource::Resource) => spec_option_lookup_next(
                    OptionSource::Resource,
                    from_resource->0,
                    has_res,
                ),
                other => other,
            };
            &&& !(third is Read)
            &&& (second matches OptionLookup::Read(OptionSource::Resource) ==> has_res
                && from_arguments == Some(None::<V>))
            &&& match spec_option_value(from_arguments, from_resource) {
                Some(v) => third == OptionLookup::Found(v),
                None => third is Missing,
            }
        }),
{
}

/// The options of a fetch, once read and checked.
#[derive(Debug)]
pub struct FetchOptions {
    pub method: HttpMethod,
    pub url: String,
    pub headers: Vec<HeaderPair>,
    pub body: Vec<u8>,
    pub redirect: RedirectMode,
}

/// Completes the options of a fetch: the `url` option overrides the URL
/// that the resource gives, one of them is required, and the method, body
/// and redirect mode default to `GET`, no bytes and `follow`.
pub fn finish_fetch_options(
    resource_url: Option<String>,
    url_option: Option<String>,
    method: Option<HttpMethod>,
    headers: Vec<HeaderPair>,
    body: Option<Vec<u8>>,
    redirect: Option<RedirectMode>,
) -> (r: Result<FetchOptions, FetchError>)
    ensures
        resource_url is None && url_option is None ==> r matches Err(FetchError::MissingUrl),
        !(resource_url is None && url_option is None) ==> (r matches Ok(o) && {
            &&& o.url@ == (match url_option {
                Some(u) => u@,
                None => resource_url->0@,
            })
            &&& o.method == (match method {
                Some(m) => m,
                None => HttpMethod::Get,
            })
            &&& o.headers@ == headers@
            &&& o.body@ == (match body {
                Some(b) => b@,
                None => Seq::<u8>::empty(),
            })
            &&& o.redirect == (match redirect {
                Some(m) => m,
                None => RedirectMode::Follow,
            })
        }),
{
    let url = match url_option {
        Some(u) => u,
        None => match resource_url {
            Some(u) => u,
            None => {
                return Err(FetchError::MissingUrl);
            },
        },
    };
    let method = match method {
        Some(m) => m,
        None => HttpMethod::Get,
    };
    let body = match body {
        Some(b) => b,
        None => Vec::new(),
    };
    let redirect = match redirect {
        Some(m) => m,
        None => RedirectMode::Follow,
    };
    Ok(FetchOptions { method, url, headers, body, redirect })
}

} // verus!
