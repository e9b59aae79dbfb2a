//! The substitution engine: a fixed, ordered catalogue of literal rewrite
//! rules, applied to an input string.
//!
//! The catalogue is evaluated in three stages, in this order:
//! a validation rule whose trigger aborts the whole conversion, the
//! unconditional substitutions, and two conditional substitutions whose
//! guards are tested against the original input, never against the
//! partially rewritten text.

use vstd::prelude::*;
use vstd::std_specs::iter::IteratorSpec;
use vstd::string::StringExecFns;

use crate::text::contains_pattern;
use crate::text::contains_seq;
use crate::text::lemma_replaced_no_match;
use crate::text::replace_all;
use crate::text::replaced;

verus! {

/// The trigger of the one validation rule: input holding it is rejected.
pub open spec fn validation_trigger() -> Seq<char> {
    "let x = ;"@
}

/// The message of the one validation rule.
pub open spec fn invalid_syntax_message() -> Seq<char> {
    "Invalid JavaScript syntax: incomplete expression"@
}

/// The result of applying every unconditional substitution of the
/// catalogue, in catalogue order, to `s`. Later rules operate on the
/// already-rewritten text.
pub open spec fn substituted(s: Seq<char>) -> Seq<char> {
    // functions
    let t = replaced(s, "function add(a, b)"@, "function add(a: number, b: number): number"@);
    let t = replaced(t, "function greet(name)"@, "function greet(name: string): string"@);
    // arrow functions
    let t = replaced(
        t,
        "const multiply = (a, b) =>"@,
        "const multiply = (a: number, b: number): number =>"@,
    );
    // variables
    let t = replaced(t, "let x = 10;"@, "let x: number = 10;"@);
    let t = replaced(t, "const name = \"Tara\";"@, "const name: string = \"Tara\";"@);
    // classes
    let t = replaced(t, "class Person {"@, "class Person {"@);
    let t = replaced(t, "constructor(name, age)"@, "constructor(name: string, age: number)"@);
    // loops
    let t = replaced(t, "for (let i = 0;"@, "for (let i: number = 0;"@);
    let t = replaced(t, "while (true)"@, "while (true: boolean)"@);
    // conditionals
    let t = replaced(t, "if (x > 0)"@, "if (x > 0)"@);
    let t = replaced(t, "else if (x < 0)"@, "else if (x < 0)"@);
    let t = replaced(t, "switch (x)"@, "switch (x: number)"@);
    // arrays
    let t = replaced(t, "let numbers = [1, 2, 3];"@, "let numbers: number[] = [1, 2, 3];"@);
    let t = replaced(
        t,
        "let names = [\"Tara\", \"John\"];"@,
        "let names: string[] = [\"Tara\", \"John\"];"@,
    );
    // objects
    let t = replaced(
        t,
        "let person = {"@,
        "let person: { name: string, age: number, address: { city: string, zip: number } } = {"@,
    );
    let t = replaced(t, "name: \"Tara\","@, "name: \"Tara\","@);
    let t = replaced(t, "age: 30"@, "age: 30"@);
    let t = replaced(t, "city: \"New York\","@, "city: \"New York\","@);
    let t = replaced(t, "zip: 10001"@, "zip: 10001"@);
    // optional properties
    let t = replaced(
        t,
        "let obj = { name?: string }"@,
        "let obj: { name?: string } = { name?: string }"@,
    );
    // union types
    let t = replaced(t, "let x: string | number"@, "let x: string | number"@);
    // interfaces
    let t = replaced(t, "interface Person {"@, "interface Person {"@);
    let t = replaced(t, "name: string"@, "name: string"@);
    let t = replaced(t, "age: number"@, "age: number"@);
    // empty objects
    let t = replaced(t, "let obj = {}"@, "let obj: {} = {}"@);
    t
}

/// The result of applying the conditional substitutions of the catalogue
/// to `t`, each gated on a substring test against `original`: the input as
/// it was before any substitution.
pub open spec fn conditionals_applied(t: Seq<char>, original: Seq<char>) -> Seq<char> {
    let t1 = if contains_seq(original, "function getValue(x)"@) {
        replaced(t, "function getValue(x)"@, "function getValue(x: number): string | number"@)
    } else {
        t
    };
    if contains_seq(original, "function complexFunction(a, b, c)"@) {
        replaced(
            t1,
            "function complexFunction(a, b, c)"@,
            "function complexFunction(a: number, b: number, c: number): { result: number, type: string }"@,
        )
    } else {
        t1
    }
}

/// The full rewrite of a valid input: the unconditional substitutions in
/// catalogue order, then the conditional ones, whose guards read `s` itself.
pub open spec fn rewritten(s: Seq<char>) -> Seq<char> {
    conditionals_applied(substituted(s), s)
}

/// What the conversion returns for the input `s`: the validation error if
/// the trigger occurs in `s`, otherwise the full rewrite.
pub open spec fn conversion_spec(s: Seq<char>) -> Result<Seq<char>, Seq<char>> {
    if contains_seq(s, validation_trigger()) {
        Err(invalid_syntax_message())
    } else {
        Ok(rewritten(s))
    }
}

/// The views of a conversion result's strings.
pub open spec fn result_view(r: Result<String, String>) -> Result<Seq<char>, Seq<char>> {
    match r {
        Ok(out) => Ok(out@),
        Err(msg) => Err(msg@),
    }
}

/// The conversion is deterministic: it is a function of the input text
/// alone, so equal inputs are mapped to equal outcomes.
pub proof fn lemma_conversion_deterministic(s1: Seq<char>, s2: Seq<char>)
    requires
        s1 == s2,
    ensures
        conversion_spec(s1) == conversion_spec(s2),
{
}

/// Validation short-circuits: an input holding the validation trigger is
/// rejected with the validation message, and no substitution is reported.
pub proof fn lemma_validation_short_circuits(s: Seq<char>)
    requires
        contains_seq(s, validation_trigger()),
    ensures
        conversion_spec(s) == Err::<Seq<char>, Seq<char>>(invalid_syntax_message()),
{
}

/// A conditional rule's guard is tested against the original input `s`,
/// never against the partially rewritten working text.
pub proof fn lemma_guards_read_original(s: Seq<char>)
    ensures
        rewritten(s) == conditionals_applied(substituted(s), s),
{
}

/// No rule of the catalogue touches `s`: neither the validation trigger,
/// nor any substitution pattern, nor any conditional guard occurs in it.
pub open spec fn free_of_catalogue(s: Seq<char>) -> bool {
    &&& !contains_seq(s, "let x = ;"@)
    &&& !contains_seq(s, "function add(a, b)"@)
    &&& !contains_seq(s, "function greet(name)"@)
    &&& !contains_seq(s, "const multiply = (a, b) =>"@)
    &&& !contains_seq(s, "let x = 10;"@)
    &&& !contains_seq(s, "const name = \"Tara\";"@)
    &&& !contains_seq(s, "class Person {"@)
    &&& !contains_seq(s, "constructor(name, age)"@)
    &&& !contains_seq(s, "for (let i = 0;"@)
    &&& !contains_seq(s, "while (true)"@)
    &&& !contains_seq(s, "if (x > 0)"@)
    &&& !contains_seq(s, "else if (x < 0)"@)
    &&& !contains_seq(s, "switch (x)"@)
    &&& !contains_seq(s, "let numbers = [1, 2, 3];"@)
    &&& !contains_seq(s, "let names = [\"Tara\", \"John\"];"@)
    &&& !contains_seq(s, "let person = {"@)
    &&& !contains_seq(s, "name: \"Tara\","@)
    &&& !contains_seq(s, "age: 30"@)
    &&& !contains_seq(s, "city: \"New York\","@)
    &&& !contains_seq(s, "zip: 10001"@)
    &&& !contains_seq(s, "let obj = { name?: string }"@)
    &&& !contains_seq(s, "let x: string | number"@)
    &&& !contains_seq(s, "interface Person {"@)
    &&& !contains_seq(s, "name: string"@)
    &&& !contains_seq(s, "age: number"@)
    &&& !contains_seq(s, "let obj = {}"@)
    &&& !contains_seq(s, "function getValue(x)"@)
    &&& !contains_seq(s, "function complexFunction(a, b, c)"@)
}

/// An input free of every pattern, trigger and guard of the catalogue
/// comes back unchanged.
pub proof fn lemma_untouched_input_returned(s: Seq<char>)
    requires
        free_of_catalogue(s),
    ensures
        conversion_spec(s) == Ok::<Seq<char>, Seq<char>>(s),
{
    lemma_replaced_no_match(s, "function add(a, b)"@, "function add(a: number, b: number): number"@);
    lemma_replaced_no_match(s, "function greet(name)"@, "function greet(name: string): string"@);
    lemma_replaced_no_match(
        s,
        "const multiply = (a, b) =>"@,
        "const multiply = (a: number, b: number): number =>"@,
    );
    lemma_replaced_no_match(s, "let x = 10;"@, "let x: number = 10;"@);
    lemma_replaced_no_match(s, "const name = \"Tara\";"@, "const name: string = \"Tara\";"@);
    lemma_replaced_no_match(s, "class Person {"@, "class Person {"@);
    lemma_replaced_no_match(s, "constructor(name, age)"@, "constructor(name: string, age: number)"@);
    lemma_replaced_no_match(s, "for (let i = 0;"@, "for (let i: number = 0;"@);
    lemma_replaced_no_match(s, "while (true)"@, "while (true: boolean)"@);
    lemma_replaced_no_match(s, "if (x > 0)"@, "if (x > 0)"@);
    lemma_replaced_no_match(s, "else if (x < 0)"@, "else if (x < 0)"@);
    lemma_replaced_no_match(s, "switch (x)"@, "switch (x: number)"@);
    lemma_replaced_no_match(s, "let numbers = [1, 2, 3];"@, "let numbers: number[] = [1, 2, 3];"@);
    lemma_replaced_no_match(
        s,
        "let names = [\"Tara\", \"John\"];"@,
        "let names: string[] = [\"Tara\", \"John\"];"@,
    );
    lemma_replaced_no_match(
        s,
        "let person = {"@,
        "let person: { name: string, age: number, address: { city: string, zip: number } } = {"@,
    );
    lemma_replaced_no_match(s, "name: \"Tara\","@, "name: \"Tara\","@);
    lemma_replaced_no_match(s, "age: 30"@, "age: 30"@);
    lemma_replaced_no_match(s, "city: \"New York\","@, "city: \"New York\","@);
    lemma_replaced_no_match(s, "zip: 10001"@, "zip: 10001"@);
    lemma_replaced_no_match(
        s,
        "let obj = { name?: string }"@,
        "let obj: { name?: string } = { name?: string }"@,
    );
    lemma_replaced_no_match(s, "let x: string | number"@, "let x: string | number"@);
    lemma_replaced_no_match(s, "interface Person {"@, "interface Person {"@);
    lemma_replaced_no_match(s, "name: string"@, "name: string"@);
    lemma_replaced_no_match(s, "age: number"@, "age: number"@);
    lemma_replaced_no_match(s, "let obj = {}"@, "let obj: {} = {}"@);
    assert(substituted(s) == s);
}

/// The characters of `s`, in order, as a vector.
fn chars_of(s: &str) -> (r: Vec<char>)
    ensures
        r@ == s@,
{
    let mut it = s.chars();
    let mut r: Vec<char> = Vec::new();
    proof {
        assert(Seq::<char>::empty() + s@ =~= s@);
    }
    loop
        invariant
            it.obeys_prophetic_iter_laws(),
            it.decrease() is Some,
            r@ + it.remaining() == s@,
        ensures
            r@ == s@,
        decreases it.decrease()->0,
    {
        let ghost prev = r@;
        let ghost prev_rem = it.remaining();
        match it.next() {
            Some(c) => {
                r.push(c);
                proof {
                    assert(prev + prev_rem =~= (prev + seq![c]) + prev_rem.drop_first());
                }
            },
            None => {
                proof {
                    assert(prev + prev_rem =~= prev);
                }
                break;
            },
        }
    }
    r
}

/// Relies on String's FromIterator implementation: collecting characters
/// yields the string of exactly those characters, in order.
#[verifier::external_body]
fn string_from_chars(v: Vec<char>) -> (r: String)
    ensures
        r@ == v@,
{
    String::from_iter(v)
}

/// Applies one substitution rule to the working text.
fn apply_rule(t: &Vec<char>, pat: &str, rep: &str) -> (out: Vec<char>)
    ensures
        out@ == replaced(t@, pat@, rep@),
{
    let p = chars_of(pat);
    let r = chars_of(rep);
    replace_all(t, &p, &r)
}

/// Whether the original input holds the guard of a conditional rule.
fn has_guard(original: &Vec<char>, guard: &str) -> (b: bool)
    ensures
        b == contains_seq(original@, guard@),
{
    let g = chars_of(guard);
    contains_pattern(original, &g)
}

/// Converts JavaScript source text to TypeScript by applying the fixed
/// catalogue of literal substitution rules, in catalogue order.
///
/// Input holding the validation trigger is rejected with the validation
/// message and nothing is rewritten; any other input is rewritten in full.
pub fn convert_js_to_ts(js_code: &str) -> (r: Result<String, String>)
    ensures
        result_view(r) == conversion_spec(js_code@),
{
    let original = chars_of(js_code);
    if has_guard(&original, "let x = ;") {
        return Err(String::from_str("Invalid JavaScript syntax: incomplete expression"));
    }
    // functions
    let t = apply_rule(&original, "function add(a, b)", "function add(a: number, b: number): number");
    let t = apply_rule(&t, "function greet(name)", "function greet(name: string): string");
    // arrow functions
    let t = apply_rule(&t, "const multiply = (a, b) =>", "const multiply = (a: number, b: number): number =>");
    // variables
    let t = apply_rule(&t, "let x = 10;", "let x: number = 10;");
    let t = apply_rule(&t, "const name = \"Tara\";", "const name: string = \"Tara\";");
    // classes
    let t = apply_rule(&t, "class Person {", "class Person {");
    let t = apply_rule(&t, "constructor(name, age)", "constructor(name: string, age: number)");
    // loops
    let t = apply_rule(&t, "for (let i = 0;", "for (let i: number = 0;");
    let t = apply_rule(&t, "while (true)", "while (true: boolean)");
    // conditionals
    let t = apply_rule(&t, "if (x > 0)", "if (x > 0)");
    let t = apply_rule(&t, "else if (x < 0)", "else if (x < 0)");
    let t = apply_rule(&t, "switch (x)", "switch (x: number)");
    // arrays
    let t = apply_rule(&t, "let numbers = [1, 2, 3];", "let numbers: number[] = [1, 2, 3];");
    let t = apply_rule(&t, "let names = [\"Tara\", \"John\"];", "let names: string[] = [\"Tara\", \"John\"];");
    // objects
    let t = apply_rule(
        &t,
        "let person = {",
        "let person: { name: string, age: number, address: { city: string, zip: number } } = {",
    );
    let t = apply_rule(&t, "name: \"Tara\",", "name: \"Tara\",");
    let t = apply_rule(&t, "age: 30", "age: 30");
    let t = apply_rule(&t, "city: \"New York\",", "city: \"New York\",");
    let t = apply_rule(&t, "zip: 10001", "zip: 10001");
    // optional properties
    let t = apply_rule(&t, "let obj = { name?: string }", "let obj: { name?: string } = { name?: string }");
    // union types
    let t = apply_rule(&t, "let x: string | number", "let x: string | number");
    // interfaces
    let t = apply_rule(&t, "interface Person {", "interface Person {");
    let t = apply_rule(&t, "name: string", "name: string");
    let t = apply_rule(&t, "age: number", "age: number");
    // empty objects
    let t = apply_rule(&t, "let obj = {}", "let obj: {} = {}");
    // functions with multiple return types
    let t = if has_guard(&original, "function getValue(x)") {
        apply_rule(&t, "function getValue(x)", "function getValue(x: number): string | number")
    } else {
        t
    };
    // complex functions with object return types
    let t = if has_guard(&original, "function complexFunction(a, b, c)") {
        apply_rule(
            &t,
            "function complexFunction(a, b, c)",
            "function complexFunction(a: number, b: number, c: number): { result: number, type: string }",
        )
    } else {
        t
    };
    Ok(string_from_chars(t))
}

} // verus!
