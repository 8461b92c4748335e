//! Writers of the small parts of a line: a type behind a colon, a list of
//! parameters, a keyword, a name.

use crate::layout::{
    accessibility_text, callable_text, class_extends_text, class_heritage_text, class_method_text,
    class_property_text, declaration_head, decorator_line, decorator_lines, keyword, modifier,
    name_text, param_text, params_text, type_list_text, type_params_text, type_suffix,
};
use crate::node::{
    Accessibility, ClassDef, ClassMethodDef, ClassPropertyDef, ParamDef, ParamDefView,
};
use crate::style::{Style, write_painted};
use crate::text::{blocks, join, lemma_blocks_empty, lemma_blocks_next, write_indent, write_joined};
use vstd::prelude::*;

verus! {

/// Appends `: Type` where there is a type.
pub fn write_type_suffix(w: &mut String, ts_type: &Option<String>)
    ensures
        final(w)@ == old(w)@ + type_suffix(ts_type.deep_view()),
{
    match ts_type {
        Some(t) => {
            w.append(": ");
            w.append(t.as_str());
        },
        None => {},
    }
}

/// Appends `<A, B>` for a list that is not empty.
pub fn write_type_params(w: &mut String, type_params: &Vec<String>)
    ensures
        final(w)@ == old(w)@ + type_params_text(type_params.deep_view()),
{
    if type_params.len() > 0 {
        w.append("<");
        write_joined(w, type_params, ", ");
        w.append(">");
    }
}

/// Appends one parameter.
pub fn write_param(w: &mut String, param: &ParamDef)
    ensures
        final(w)@ == old(w)@ + param_text(param@),
{
    w.append(param.name.as_str());
    if param.has_default {
        w.append("?");
    }
    write_type_suffix(w, &param.ts_type);
}

/// Appends the parameters, separated by a comma and a space.
pub fn write_params(w: &mut String, params: &Vec<ParamDef>)
    ensures
        final(w)@ == old(w)@ + params_text(params.deep_view()),
{
    let ghost parts = params.deep_view().map_values(|p: ParamDefView| param_text(p));
    let mut i: usize = 0;
    while i < params.len()
        invariant
            i <= params.len(),
            parts == params.deep_view().map_values(|p: ParamDefView| param_text(p)),
            w@ == old(w)@ + join(parts.take(i as int), ", "@),
        decreases params.len() - i,
    {
        if i > 0 {
            w.append(", ");
        }
        write_param(w, &params[i]);
        proof {
            let next = parts.take(i + 1);
            assert(next.drop_last() == parts.take(i as int));
            assert(next.last() == param_text(params@[i as int]@));
        }
        i = i + 1;
    }
    proof {
        assert(parts.take(params.len() as int) == parts);
    }
}

/// Appends a word in the style of keywords.
pub fn write_keyword(w: &mut String, word: &str, color: bool)
    ensures
        final(w)@ == old(w)@ + keyword(word@, color),
{
    write_painted(w, Style::Keyword, word, color);
}

/// Appends a modifier where it applies.
pub fn write_modifier(w: &mut String, applies: bool, word: &str, color: bool)
    ensures
        final(w)@ == old(w)@ + modifier(applies, word@, color),
{
    if applies {
        write_keyword(w, word, color);
    }
}

/// Appends a declared name.
pub fn write_name(w: &mut String, name: &String, color: bool)
    ensures
        final(w)@ == old(w)@ + name_text(name@, color),
{
    write_painted(w, Style::Name, name.as_str(), color);
}

/// Appends the decorators, each on its line.
pub fn write_decorators(w: &mut String, decorators: &Vec<String>, depth: usize)
    ensures
        final(w)@ == old(w)@ + decorator_lines(decorators.deep_view(), depth as nat),
{
    let ghost items = decorators.deep_view();
    let ghost f = decorator_line(depth as nat);
    proof {
        lemma_blocks_empty(f);
        assert(items.take(0) == Seq::<Seq<char>>::empty());
    }
    let mut i: usize = 0;
    while i < decorators.len()
        invariant
            i <= decorators.len(),
            items == decorators.deep_view(),
            f == decorator_line(depth as nat),
            w@ == old(w)@ + blocks(items.take(i as int), f),
        decreases decorators.len() - i,
    {
        proof {
            lemma_blocks_next(items, f, i as int);
        }
        write_indent(w, depth);
        w.append("@");
        w.append(decorators[i].as_str());
        w.append("\n");
        i = i + 1;
    }
    proof {
        assert(items.take(decorators.len() as int) == items);
    }
}

/// Appends `protected ` or `private `; a public member says nothing.
pub fn write_accessibility(w: &mut String, accessibility: Accessibility, color: bool)
    ensures
        final(w)@ == old(w)@ + accessibility_text(accessibility, color),
{
    match accessibility {
        Accessibility::Public => {},
        Accessibility::Protected => {
            write_keyword(w, "protected ", color);
        },
        Accessibility::Private => {
            write_keyword(w, "private ", color);
        },
    }
}

/// Appends ` word A, B` for a list of types that is not empty.
pub fn write_type_list(w: &mut String, word: &str, types: &Vec<String>, color: bool)
    ensures
        final(w)@ == old(w)@ + type_list_text(word@, types.deep_view(), color),
{
    if types.len() > 0 {
        w.append(" ");
        write_keyword(w, word, color);
        w.append(" ");
        write_joined(w, types, ", ");
    }
}

/// Appends what follows the name of something that is called.
pub fn write_callable(
    w: &mut String,
    type_params: &Vec<String>,
    params: &Vec<ParamDef>,
    return_type: &Option<String>,
)
    ensures
        final(w)@ == old(w)@ + callable_text(
            type_params.deep_view(),
            params.deep_view(),
            return_type.deep_view(),
        ),
{
    write_type_params(w, type_params);
    w.append("(");
    write_params(w, params);
    w.append(")");
    write_type_suffix(w, return_type);
}

/// Appends a keyword, a space and the declared name.
pub fn write_declaration_head(w: &mut String, word: &str, name: &String, color: bool)
    ensures
        final(w)@ == old(w)@ + declaration_head(word@, name@, color),
{
    write_keyword(w, word, color);
    w.append(" ");
    write_name(w, name, color);
}

/// Appends what a class extends and what it implements.
pub fn write_class_heritage(w: &mut String, def: &ClassDef, color: bool)
    ensures
        final(w)@ == old(w)@ + class_heritage_text(def@, color),
{
    let ghost before = w@;
    match &def.extends {
        Some(parent) => {
            w.append(" ");
            write_keyword(w, "extends", color);
            w.append(" ");
            w.append(parent.as_str());
            write_type_params(w, &def.super_type_params);
        },
        None => {},
    }
    assert(w@ == before + class_extends_text(def@, color));
    write_type_list(w, "implements", &def.implements, color);
}

/// Appends `[protected |private ]Name[: Type]`.
pub fn write_class_property(w: &mut String, member: &ClassPropertyDef, color: bool)
    ensures
        final(w)@ == old(w)@ + class_property_text(member@, color),
{
    write_accessibility(w, member.accessibility, color);
    write_name(w, &member.name, color);
    write_type_suffix(w, &member.ts_type);
}

/// Appends `[protected |private ][async ][*]Name[<TypeParams>](Params)[: ReturnType]`.
pub fn write_class_method(w: &mut String, member: &ClassMethodDef, color: bool)
    ensures
        final(w)@ == old(w)@ + class_method_text(member@, color),
{
    let function = &member.function_def;
    write_accessibility(w, member.accessibility, color);
    write_modifier(w, function.is_async, "async ", color);
    write_modifier(w, function.is_generator, "*", color);
    write_name(w, &member.name, color);
    write_callable(w, &function.type_params, &function.params, &function.return_type);
}

} // verus!
