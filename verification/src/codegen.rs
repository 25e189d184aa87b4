use vstd::prelude::*;
use crate::method::{lemma_method_names_distinct, str_is};

verus! {

/// The options of `#[handler(...)]`: the name of the parameter that receives
/// the request body, if any.
#[derive(Debug, Clone)]
pub struct HandlerArgs {
    pub data: Option<String>,
}

/// The options of a route attribute for a method with a body
/// (`post`, `put`, `patch`).
#[derive(Debug, Clone)]
pub struct RouteDataArgs {
    pub path: String,
    pub data: Option<String>,
}

/// The options of a route attribute for a method without a body.
#[derive(Debug, Clone)]
pub struct RouteArgs {
    pub path: String,
}

/// The options of `#[module(...)]`.
#[derive(Debug, Clone)]
pub struct ModuleArgs {
    pub path: Option<String>,
}

/// How the generated handler uses the parameters of the annotated function.
#[derive(Debug, Clone)]
pub struct HandlerPlan {
    /// Positions of the parameters extracted from the request, in order.
    pub inputs: Vec<usize>,
    /// Position of the parameter that receives the body, if any.
    pub data: Option<usize>,
    /// Name of the body argument of the generated `handle`.
    pub data_arg: String,
}

/// Positions `i < names.len()` whose parameter is extracted from the request:
/// with a body parameter `d`, those not named `d`; without one, all of them.
pub open spec fn input_positions(names: Seq<String>, data: Option<String>) -> Seq<usize>
    decreases names.len(),
{
    if names.len() == 0 {
        seq![]
    } else {
        let earlier = input_positions(names.drop_last(), data);
        match data {
            Some(d) => if names.last()@ != d@ {
                earlier.push((names.len() - 1) as usize)
            } else {
                earlier
            },
            None => earlier.push((names.len() - 1) as usize),
        }
    }
}

/// The first position whose parameter is named `name`.
pub open spec fn first_named(names: Seq<String>, name: Seq<char>) -> Option<usize>
    decreases names.len(),
{
    if names.len() == 0 {
        None
    } else {
        match first_named(names.drop_last(), name) {
            Some(i) => Some(i),
            None => if names.last()@ == name {
                Some((names.len() - 1) as usize)
            } else {
                None
            },
        }
    }
}

proof fn lemma_first_named(names: Seq<String>, name: Seq<char>)
    requires
        names.len() <= usize::MAX,
    ensures
        first_named(names, name) matches Some(i) ==> i < names.len() && names[i as int]@ == name,
        first_named(names, name) is None <==> forall|j: int| 0 <= j < names.len() ==> #[trigger] names[j]@ != name,
    decreases names.len(),
{
    if names.len() > 0 {
        lemma_first_named(names.drop_last(), name);
        assert forall|j: int| 0 <= j < names.len() - 1 implies #[trigger] names[j] == names.drop_last()[j] by {}
    }
}

/// The position of the first parameter named `name`, if there is one.
pub fn find_parameter(names: &Vec<String>, name: &str) -> (r: Option<usize>)
    ensures
        r == first_named(names@, name@),
        r matches Some(i) ==> i < names@.len() && names@[i as int]@ == name@,
        r is None <==> forall|j: int| 0 <= j < names@.len() ==> #[trigger] names@[j]@ != name@,
{
    let mut i: usize = 0;
    while i < names.len()
        invariant
            i <= names@.len(),
            first_named(names@.subrange(0, i as int), name@) is None,
        decreases names@.len() - i,
    {
        proof {
            assert(names@.subrange(0, i + 1).drop_last() =~= names@.subrange(0, i as int));
        }
        if str_is(names[i].as_str(), name) {
            proof {
                lemma_prefix_first_named(names@, name@, (i + 1) as nat);
            }
            return Some(i);
        }
        i = i + 1;
    }
    proof {
        assert(names@.subrange(0, i as int) =~= names@);
        lemma_first_named(names@, name@);
    }
    None
}

proof fn lemma_prefix_first_named(names: Seq<String>, name: Seq<char>, k: nat)
    requires
        k <= names.len(),
        first_named(names.subrange(0, k as int), name) is Some,
    ensures
        first_named(names, name) == first_named(names.subrange(0, k as int), name),
    decreases names.len() - k,
{
    if k < names.len() {
        assert(names.subrange(0, k as int + 1).drop_last() =~= names.subrange(0, k as int));
        lemma_prefix_first_named(names, name, k + 1);
    } else {
        assert(names.subrange(0, k as int) =~= names);
    }
}

/// Plans the handler generated for a function with parameters `names` and
/// the handler option `data`. The body parameter, when named, must exist.
pub fn plan_handler(names: &Vec<String>, data: &Option<String>) -> (r: HandlerPlan)
    requires
        data matches Some(d) ==> exists|j: int| 0 <= j < names@.len() && #[trigger] names@[j]@ == d@,
    ensures
        r.inputs@ == input_positions(names@, *data),
        match data {
            Some(d) => r.data == first_named(names@, d@) && r.data is Some && r.data_arg@ == d@,
            None => r.data is None && r.data_arg@ == "data"@,
        },
{
    let mut inputs: Vec<usize> = Vec::new();
    let mut i: usize = 0;
    while i < names.len()
        invariant
            i <= names@.len(),
            inputs@ == input_positions(names@.subrange(0, i as int), *data),
        decreases names@.len() - i,
    {
        proof {
            assert(names@.subrange(0, i + 1).drop_last() =~= names@.subrange(0, i as int));
        }
        match data {
            Some(d) => {
                if !str_is(names[i].as_str(), d.as_str()) {
                    inputs.push(i);
                }
            },
            None => {
                inputs.push(i);
            },
        }
        i = i + 1;
    }
    proof {
        assert(names@.subrange(0, i as int) =~= names@);
    }
    match data {
        Some(d) => {
            let found = find_parameter(names, d.as_str());
            HandlerPlan { inputs, data: found, data_arg: d.clone() }
        },
        None => HandlerPlan { inputs, data: None, data_arg: "data".to_owned() },
    }
}

/// With a body parameter `d`, every parameter not named `d` is extracted from
/// the request, in order, and none named `d` is.
pub proof fn law_plan_splits_parameters(names: Seq<String>, d: String)
    requires
        names.len() <= usize::MAX,
    ensures
        forall|i: int| 0 <= i < names.len() ==> (input_positions(names, Some(d)).contains(i as usize) <==> names[i]@ != d@),
        forall|k: int, l: int| 0 <= k < l < input_positions(names, Some(d)).len() ==>
            input_positions(names, Some(d))[k] < input_positions(names, Some(d))[l],
    decreases names.len(),
{
    if names.len() > 0 {
        let init = names.drop_last();
        law_plan_splits_parameters(init, d);
        lemma_input_positions_below(init, Some(d));
        assert forall|i: int| 0 <= i < names.len() implies (input_positions(names, Some(d)).contains(i as usize) <==> names[i]@ != d@) by {
            if i < names.len() - 1 {
                assert(names[i] == init[i]);
                if input_positions(names, Some(d)).contains(i as usize) && !input_positions(init, Some(d)).contains(i as usize) {
                    let k = choose|k: int| 0 <= k < input_positions(names, Some(d)).len() && input_positions(names, Some(d))[k] == i as usize;
                    assert(k == input_positions(init, Some(d)).len());
                }
                if input_positions(init, Some(d)).contains(i as usize) {
                    let k = choose|k: int| 0 <= k < input_positions(init, Some(d)).len() && input_positions(init, Some(d))[k] == i as usize;
                    assert(input_positions(names, Some(d))[k] == i as usize);
                }
            } else {
                if !(names[i]@ != d@) && input_positions(names, Some(d)).contains(i as usize) {
                    let k = choose|k: int| 0 <= k < input_positions(names, Some(d)).len() && input_positions(names, Some(d))[k] == i as usize;
                    assert(input_positions(init, Some(d))[k] < init.len());
                }
                if names[i]@ != d@ {
                    assert(input_positions(names, Some(d)).last() == i as usize);
                }
            }
        }
    }
}

proof fn lemma_input_positions_below(names: Seq<String>, data: Option<String>)
    requires
        names.len() <= usize::MAX,
    ensures
        forall|k: int| 0 <= k < input_positions(names, data).len() ==> #[trigger] input_positions(names, data)[k] < names.len(),
    decreases names.len(),
{
    if names.len() > 0 {
        let earlier = input_positions(names.drop_last(), data);
        lemma_input_positions_below(names.drop_last(), data);
        assert forall|k: int| 0 <= k < input_positions(names, data).len() implies #[trigger] input_positions(names, data)[k] < names.len() by {
            if k < earlier.len() {
                assert(input_positions(names, data)[k] == earlier[k]);
            }
        }
    }
}

/// Without a body parameter, every parameter is extracted from the request,
/// in order.
pub proof fn law_no_data_every_input(names: Seq<String>)
    requires
        names.len() <= usize::MAX,
    ensures
        input_positions(names, None).len() == names.len(),
        forall|i: int| 0 <= i < names.len() ==> #[trigger] input_positions(names, None)[i] == i as usize,
    decreases names.len(),
{
    if names.len() > 0 {
        law_no_data_every_input(names.drop_last());
        assert forall|i: int| 0 <= i < names.len() implies #[trigger] input_positions(names, None)[i] == i as usize by {
            if i < names.len() - 1 {
                assert(input_positions(names, None)[i] == input_positions(names.drop_last(), None)[i]);
            }
        }
    }
}

/// The attribute names that make a function in a module a route.
pub open spec fn route_attribute_name(s: Seq<char>) -> bool {
    s == "get"@ || s == "post"@ || s == "put"@ || s == "patch"@ || s == "delete"@ || s == "head"@
}

/// Whether an attribute, given by its single-identifier path (or `None` when
/// its path is not a single identifier), is a route attribute.
pub open spec fn is_route_attribute(a: Option<String>) -> bool {
    a matches Some(n) && route_attribute_name(n@)
}

/// The positions of the route attributes among `attrs`, in order.
pub open spec fn route_positions(attrs: Seq<Option<String>>) -> Seq<usize>
    decreases attrs.len(),
{
    if attrs.len() == 0 {
        seq![]
    } else {
        let earlier = route_positions(attrs.drop_last());
        if is_route_attribute(attrs.last()) {
            earlier.push((attrs.len() - 1) as usize)
        } else {
            earlier
        }
    }
}

proof fn lemma_route_positions(attrs: Seq<Option<String>>)
    requires
        attrs.len() <= usize::MAX,
    ensures
        forall|k: int| 0 <= k < route_positions(attrs).len() ==> {
            &&& #[trigger] route_positions(attrs)[k] < attrs.len()
            &&& is_route_attribute(attrs[route_positions(attrs)[k] as int])
        },
    decreases attrs.len(),
{
    if attrs.len() > 0 {
        lemma_route_positions(attrs.drop_last());
        let earlier = route_positions(attrs.drop_last());
        assert forall|k: int| 0 <= k < earlier.len() implies attrs[earlier[k] as int] == attrs.drop_last()[earlier[k] as int] by {}
    }
}

fn is_route_name(a: &Option<String>) -> (r: bool)
    ensures
        r == is_route_attribute(*a),
{
    match a {
        Some(n) => {
            let s = n.as_str();
            str_is(s, "get") || str_is(s, "post") || str_is(s, "put") || str_is(s, "patch")
                || str_is(s, "delete") || str_is(s, "head")
        },
        None => false,
    }
}

/// The route attributes among `attrs`: how many there are and where the last
/// one stands.
fn scan_route_attrs(attrs: &Vec<Option<String>>) -> (r: (usize, usize))
    ensures
        r.0 == route_positions(attrs@).len(),
        r.0 > 0 ==> r.1 == route_positions(attrs@).last(),
{
    let mut count: usize = 0;
    let mut last: usize = 0;
    let mut i: usize = 0;
    while i < attrs.len()
        invariant
            i <= attrs@.len(),
            count == route_positions(attrs@.subrange(0, i as int)).len(),
            count <= i,
            count > 0 ==> last == route_positions(attrs@.subrange(0, i as int)).last(),
        decreases attrs@.len() - i,
    {
        proof {
            assert(attrs@.subrange(0, i + 1).drop_last() =~= attrs@.subrange(0, i as int));
        }
        if is_route_name(&attrs[i]) {
            count = count + 1;
            last = i;
        }
        i = i + 1;
    }
    proof {
        assert(attrs@.subrange(0, i as int) =~= attrs@);
    }
    (count, last)
}

/// How many of `attrs` are route attributes.
pub fn count_route_attrs(attrs: &Vec<Option<String>>) -> (r: usize)
    ensures
        r == route_positions(attrs@).len(),
{
    scan_route_attrs(attrs).0
}

/// The position of the route attribute of a function with at most one.
pub fn find_route_attr(attrs: &Vec<Option<String>>) -> (r: Option<usize>)
    requires
        route_positions(attrs@).len() <= 1,
    ensures
        route_positions(attrs@).len() == 0 ==> r is None,
        route_positions(attrs@).len() == 1 ==> r == Some(route_positions(attrs@)[0]),
        r matches Some(i) ==> i < attrs@.len() && is_route_attribute(attrs@[i as int]),
{
    let (count, last) = scan_route_attrs(attrs);
    proof {
        assert(attrs@.len() == attrs.len());
        lemma_route_positions(attrs@);
    }
    if count == 0 {
        None
    } else {
        Some(last)
    }
}

/// Whether the route attribute named `name` takes the options of a method
/// with a body (`Some(true)`: `post`, `put`, `patch`) or without one
/// (`Some(false)`: `get`, `delete`, `head`); `None` for any other name.
pub fn route_takes_data(name: &str) -> (r: Option<bool>)
    ensures
        (name@ == "get"@ || name@ == "delete"@ || name@ == "head"@) ==> r == Some(false),
        (name@ == "post"@ || name@ == "put"@ || name@ == "patch"@) ==> r == Some(true),
        !route_attribute_name(name@) ==> r is None,
{
    proof {
        lemma_method_names_distinct();
    }
    if str_is(name, "get") || str_is(name, "delete") || str_is(name, "head") {
        Some(false)
    } else if str_is(name, "post") || str_is(name, "put") || str_is(name, "patch") {
        Some(true)
    } else {
        None
    }
}

/// Where the crate that generated code refers to stands, as seen from the
/// crate being compiled.
#[derive(Debug, Clone)]
pub enum CrateLocation {
    /// The crate being compiled is that crate.
    Itself,
    /// That crate is a dependency, known under this name.
    Name(String),
}

/// `s` with every `-` turned into `_`.
pub open spec fn dashes_to_underscores(s: Seq<char>) -> Seq<char> {
    s.map_values(|c: char| if c == '-' { '_' } else { c })
}

/// The identifier made for the crate itself has no `-` left, and keeps the
/// length of the name.
pub proof fn law_crate_ident_has_no_dash(name: Seq<char>)
    ensures
        dashes_to_underscores(name).len() == name.len(),
        forall|i: int| 0 <= i < name.len() ==> dashes_to_underscores(name)[i] != '-',
{
}

/// The identifier under which generated code names the crate `name`.
pub fn crate_ident(name: &str, found: CrateLocation) -> (r: String)
    ensures
        match found {
            CrateLocation::Itself => r@ == dashes_to_underscores(name@),
            CrateLocation::Name(n) => r@ == n@,
        },
{
    match found {
        CrateLocation::Name(n) => n,
        CrateLocation::Itself => {
            let n = name.unicode_len();
            let mut out = String::new();
            let mut i: usize = 0;
            proof {
                reveal_strlit("_");
            }
            while i < n
                invariant
                    n == name@.len(),
                    i <= n,
                    out@ == dashes_to_underscores(name@.subrange(0, i as int)),
                    "_"@ == seq!['_'],
                decreases n - i,
            {
                let c = name.get_char(i);
                let ghost before = out@;
                if c == '-' {
                    out.append("_");
                } else {
                    out.append(name.substring_char(i, i + 1));
                }
                proof {
                    assert(out@ =~= dashes_to_underscores(name@.subrange(0, i + 1)));
                }
                i = i + 1;
            }
            proof {
                assert(name@.subrange(0, n as int) =~= name@);
            }
            out
        },
    }
}

} // verus!
