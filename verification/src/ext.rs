//! Lookups on the canonical request that read what the trigger sent without
//! asking which trigger it was.

use vstd::prelude::*;
use crate::request::Request;
use crate::strmap::{first_of, texts, values_of, StrMap};

verus! {

impl Request {
    /// The query parameters, or `None` where the request has none.
    pub fn query_string_parameters_ref(&self) -> (r: Option<&StrMap>)
        ensures
            match r {
                Some(parameters) => parameters@ == self@.query && self@.query.len() > 0,
                None => self@.query.len() == 0,
            },
    {
        let parameters = self.query_string_parameters();
        if parameters.is_empty() {
            None
        } else {
            Some(parameters)
        }
    }

    /// The named path segments, or `None` where the request has none.
    pub fn path_parameters_ref(&self) -> (r: Option<&StrMap>)
        ensures
            match r {
                Some(parameters) => parameters@ == self@.path_parameters
                    && self@.path_parameters.len() > 0,
                None => self@.path_parameters.len() == 0,
            },
    {
        let parameters = self.path_parameters();
        if parameters.is_empty() {
            None
        } else {
            Some(parameters)
        }
    }

    /// The value of the query parameter `name`: the first one where there are
    /// several, `None` where there is none.
    pub fn query_parameter(&self, name: &str) -> (r: Option<&str>)
        ensures
            match r {
                Some(value) => first_of(self@.query, name@) == Some(value@),
                None => first_of(self@.query, name@) is None,
            },
    {
        self.query_string_parameters().first(name)
    }

    /// Every value of the query parameter `name` in the order in which the
    /// request holds them, `None` where there is none.
    pub fn query_parameter_values(&self, name: &str) -> (r: Option<Vec<&str>>)
        ensures
            match r {
                Some(values) => texts(values@) == values_of(self@.query, name@) && values@.len()
                    > 0,
                None => values_of(self@.query, name@).len() == 0,
            },
    {
        self.query_string_parameters().all(name)
    }

    /// The path segment named `name`, `None` where the routing layer of the
    /// origin found no such segment.
    pub fn path_parameter(&self, name: &str) -> (r: Option<&str>)
        ensures
            match r {
                Some(value) => first_of(self@.path_parameters, name@) == Some(value@),
                None => first_of(self@.path_parameters, name@) is None,
            },
    {
        self.path_parameters().first(name)
    }
}

} // verus!
