use vstd::prelude::*;

verus! {

/// The value that a list of name/value pairs gives to `key`: the value of the
/// last pair named `key`, or `None` where no pair has that name.
pub open spec fn lookup(vars: Seq<(String, String)>, key: Seq<char>) -> Option<Seq<char>>
    decreases vars.len(),
{
    if vars.len() == 0 {
        None
    } else if vars.last().0@ == key {
        Some(vars.last().1@)
    } else {
        lookup(vars.drop_last(), key)
    }
}

/// The table of names and values that a list of pairs stands for.
pub open spec fn var_map(vars: Seq<(String, String)>) -> Map<Seq<char>, Seq<char>> {
    Map::new(|k: Seq<char>| lookup(vars, k) is Some, |k: Seq<char>| lookup(vars, k)->Some_0)
}

/// Appending a pair makes it the value of its name and leaves every other
/// name as it was.
proof fn lemma_push_var_map(vars: Seq<(String, String)>, pair: (String, String))
    ensures
        var_map(vars.push(pair)) == var_map(vars).insert(pair.0@, pair.1@),
{
    assert(vars.push(pair).drop_last() =~= vars);
    assert(var_map(vars.push(pair)) =~= var_map(vars).insert(pair.0@, pair.1@));
}

/// Finds the value that `vars` gives to `key`, searching from the last pair.
fn find_var(vars: &Vec<(String, String)>, key: &str) -> (r: Option<String>)
    ensures
        match r {
            Some(v) => lookup(vars@, key@) == Some(v@),
            None => lookup(vars@, key@) is None,
        },
{
    let wanted = key.to_owned();
    let mut i: usize = vars.len();
    assert(vars@.subrange(0, i as int) =~= vars@);
    while i > 0
        invariant
            i <= vars@.len(),
            wanted@ == key@,
            lookup(vars@.subrange(0, i as int), key@) == lookup(vars@, key@),
        decreases i,
    {
        let ghost prefix = vars@.subrange(0, i as int);
        assert(prefix.drop_last() =~= vars@.subrange(0, i - 1));
        if vars[i - 1].0 == wanted {
            return Some(vars[i - 1].1.clone());
        }
        i = i - 1;
    }
    assert(vars@.subrange(0, 0) =~= Seq::<(String, String)>::empty());
    None
}

/// A source of named string values, such as the environment of a process.
pub trait EnvironmentService {
    /// What a failed lookup returns.
    type GetVarError;

    /// The value that this source holds under `key`, if it holds one.
    spec fn spec_var(&self, key: Seq<char>) -> Option<Seq<char>>;

    /// The name that a failed lookup was made with.
    spec fn spec_error_key(e: &Self::GetVarError) -> Seq<char>;

    /// Gets the value named `key`, or an error naming `key` where the source
    /// holds none.
    fn var(&self, key: &str) -> (r: Result<String, Self::GetVarError>)
        ensures
            match r {
                Ok(v) => self.spec_var(key@) == Some(v@),
                Err(e) => self.spec_var(key@) is None && Self::spec_error_key(&e) == key@,
            },
    ;
}

/// The environment of the running process, as captured when it was built.
/// Variables whose name or value is not valid text are left out, so that a
/// lookup of them fails like that of an absent variable.
pub struct StandardEnvironmentService {
    variables: Vec<(String, String)>,
}

/// The error of a lookup in the process environment: the variable is absent
/// or its value is not valid text.
#[derive(Debug, Clone)]
pub struct VarError {
    key: String,
}

impl View for VarError {
    type V = Seq<char>;

    closed spec fn view(&self) -> Seq<char> {
        self.key@
    }
}

impl VarError {
    /// The name of the variable that was looked up.
    pub fn key(&self) -> (r: &str)
        ensures
            r@ == self@,
    {
        self.key.as_str()
    }
}

impl View for StandardEnvironmentService {
    type V = Map<Seq<char>, Seq<char>>;

    closed spec fn view(&self) -> Map<Seq<char>, Seq<char>> {
        var_map(self.variables@)
    }
}

impl StandardEnvironmentService {
    /// Builds the source from the name/value pairs of the process environment.
    /// Where a name occurs twice, the later pair wins.
    pub fn from_vars(variables: Vec<(String, String)>) -> (r: Self)
        ensures
            r@ == var_map(variables@),
    {
        StandardEnvironmentService { variables }
    }
}

impl EnvironmentService for StandardEnvironmentService {
    type GetVarError = VarError;

    open spec fn spec_var(&self, key: Seq<char>) -> Option<Seq<char>> {
        if self@.contains_key(key) {
            Some(self@[key])
        } else {
            None
        }
    }

    open spec fn spec_error_key(e: &VarError) -> Seq<char> {
        e@
    }

    fn var(&self, key: &str) -> (r: Result<String, VarError>) {
        match find_var(&self.variables, key) {
            Some(v) => Ok(v),
            None => Err(VarError { key: key.to_owned() }),
        }
    }
}

/// An in-memory source of values, filled by hand, for tests.
pub struct TestEnvironmentService {
    variables: Vec<(String, String)>,
}

/// The error of a lookup in a [`TestEnvironmentService`]: no value has the name.
#[derive(Debug, Clone)]
pub struct TestVarError {
    key: String,
}

impl View for TestVarError {
    type V = Seq<char>;

    closed spec fn view(&self) -> Seq<char> {
        self.key@
    }
}

impl TestVarError {
    /// The name of the variable that was looked up.
    pub fn key(&self) -> (r: &str)
        ensures
            r@ == self@,
    {
        self.key.as_str()
    }
}

impl View for TestEnvironmentService {
    type V = Map<Seq<char>, Seq<char>>;

    closed spec fn view(&self) -> Map<Seq<char>, Seq<char>> {
        var_map(self.variables@)
    }
}

impl TestEnvironmentService {
    /// Creates a source that holds no values.
    pub fn new() -> (r: Self)
        ensures
            r@ == Map::<Seq<char>, Seq<char>>::empty(),
    {
        let r = TestEnvironmentService { variables: Vec::new() };
        assert(r@ =~= Map::<Seq<char>, Seq<char>>::empty());
        r
    }

    /// Sets `key` to `value`, and returns the value that `key` had before.
    pub fn add_var(&mut self, key: &str, value: &str) -> (r: Option<String>)
        ensures
            final(self)@ == old(self)@.insert(key@, value@),
            match r {
                Some(v) => old(self)@.contains_key(key@) && old(self)@[key@] == v@,
                None => !old(self)@.contains_key(key@),
            },
    {
        let previous = find_var(&self.variables, key);
        let pair = (key.to_owned(), value.to_owned());
        proof {
            lemma_push_var_map(self.variables@, pair);
        }
        self.variables.push(pair);
        previous
    }
}

impl EnvironmentService for TestEnvironmentService {
    type GetVarError = TestVarError;

    open spec fn spec_var(&self, key: Seq<char>) -> Option<Seq<char>> {
        if self@.contains_key(key) {
            Some(self@[key])
        } else {
            None
        }
    }

    open spec fn spec_error_key(e: &TestVarError) -> Seq<char> {
        e@
    }

    fn var(&self, key: &str) -> (r: Result<String, TestVarError>) {
        match find_var(&self.variables, key) {
            Some(v) => Ok(v),
            None => Err(TestVarError { key: key.to_owned() }),
        }
    }
}

/// A value put under a name is the value that a lookup of that name gives.
pub proof fn lemma_added_var_is_found(
    before: TestEnvironmentService,
    after: TestEnvironmentService,
    key: Seq<char>,
    value: Seq<char>,
)
    requires
        after@ == before@.insert(key, value),
    ensures
        after.spec_var(key) == Some(value),
{
}

/// A lookup of a name that the source holds no value under finds nothing.
pub proof fn lemma_absent_var_is_not_found(service: TestEnvironmentService, key: Seq<char>)
    requires
        !service@.contains_key(key),
    ensures
        service.spec_var(key) is None,
{
}

} // verus!
