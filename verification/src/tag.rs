//! Tags: what a tags query found, and where.

use vstd::prelude::*;
use crate::document::{DocView, UriOrDocumentId};
use crate::text::same;

verus! {

/// Whether a tag defines a construct or refers to one.
#[derive(Debug, Clone, Copy, PartialEq, Eq, Structural)]
pub enum TagRole {
    Definition,
    Reference,
}

impl TagRole {
    /// The role's name in a capture.
    pub open spec fn name(self) -> Seq<char> {
        match self {
            TagRole::Definition => "definition"@,
            TagRole::Reference => "reference"@,
        }
    }

    /// The role's name in a capture.
    pub fn as_str(self) -> (r: &'static str)
        ensures
            r@ == self.name(),
    {
        match self {
            TagRole::Definition => "definition",
            TagRole::Reference => "reference",
        }
    }
}

/// What sort of construct a tag names.
#[derive(Debug, Clone, Copy, PartialEq, Eq, Structural)]
pub enum TagKind {
    // definition kinds
    Class,
    Constant,
    Enum,
    Field,
    Function,
    Interface,
    Macro,
    Module,
    Section,
    Struct,
    Type,
    // reference kinds
    Call,
    ClassRef,
    ImplementationRef,
}

/// The tag that a capture name announces: `definition.` or `reference.`, then one of the kinds
/// that go with that role.
pub open spec fn tag_of_capture(name: Seq<char>) -> Option<(TagRole, TagKind)> {
    if name == "definition.class"@ {
        Some((TagRole::Definition, TagKind::Class))
    } else if name == "definition.constant"@ {
        Some((TagRole::Definition, TagKind::Constant))
    } else if name == "definition.enum"@ {
        Some((TagRole::Definition, TagKind::Enum))
    } else if name == "definition.field"@ {
        Some((TagRole::Definition, TagKind::Field))
    } else if name == "definition.function"@ {
        Some((TagRole::Definition, TagKind::Function))
    } else if name == "definition.interface"@ {
        Some((TagRole::Definition, TagKind::Interface))
    } else if name == "definition.macro"@ {
        Some((TagRole::Definition, TagKind::Macro))
    } else if name == "definition.module"@ {
        Some((TagRole::Definition, TagKind::Module))
    } else if name == "definition.section"@ {
        Some((TagRole::Definition, TagKind::Section))
    } else if name == "definition.struct"@ {
        Some((TagRole::Definition, TagKind::Struct))
    } else if name == "definition.type"@ {
        Some((TagRole::Definition, TagKind::Type))
    } else if name == "reference.call"@ {
        Some((TagRole::Reference, TagKind::Call))
    } else if name == "reference.class"@ {
        Some((TagRole::Reference, TagKind::ClassRef))
    } else if name == "reference.implementation"@ {
        Some((TagRole::Reference, TagKind::ImplementationRef))
    } else {
        None
    }
}

impl TagKind {
    /// The kind's name in a capture.
    pub open spec fn name(self) -> Seq<char> {
        match self {
            TagKind::Class | TagKind::ClassRef => "class"@,
            TagKind::Constant => "constant"@,
            TagKind::Enum => "enum"@,
            TagKind::Field => "field"@,
            TagKind::Function => "function"@,
            TagKind::Interface => "interface"@,
            TagKind::Macro => "macro"@,
            TagKind::Module => "module"@,
            TagKind::Section => "section"@,
            TagKind::Struct => "struct"@,
            TagKind::Type => "type"@,
            TagKind::Call => "call"@,
            TagKind::ImplementationRef => "implementation"@,
        }
    }

    /// The role that tags of this kind have.
    pub open spec fn role(self) -> TagRole {
        match self {
            TagKind::Call | TagKind::ClassRef | TagKind::ImplementationRef => TagRole::Reference,
            _ => TagRole::Definition,
        }
    }

    /// The kind's name in a capture.
    pub fn as_str(&self) -> (r: &'static str)
        ensures
            r@ == self.name(),
    {
        match self {
            TagKind::Class | TagKind::ClassRef => "class",
            TagKind::Constant => "constant",
            TagKind::Enum => "enum",
            TagKind::Field => "field",
            TagKind::Function => "function",
            TagKind::Interface => "interface",
            TagKind::Macro => "macro",
            TagKind::Module => "module",
            TagKind::Section => "section",
            TagKind::Struct => "struct",
            TagKind::Type => "type",
            TagKind::Call => "call",
            TagKind::ImplementationRef => "implementation",
        }
    }

    /// Reads a capture name.
    pub fn from_capture_name(name: &str) -> (r: Option<(TagRole, Self)>)
        ensures
            r == tag_of_capture(name@),
    {
        if same(name, "definition.class") {
            Some((TagRole::Definition, TagKind::Class))
        } else if same(name, "definition.constant") {
            Some((TagRole::Definition, TagKind::Constant))
        } else if same(name, "definition.enum") {
            Some((TagRole::Definition, TagKind::Enum))
        } else if same(name, "definition.field") {
            Some((TagRole::Definition, TagKind::Field))
        } else if same(name, "definition.function") {
            Some((TagRole::Definition, TagKind::Function))
        } else if same(name, "definition.interface") {
            Some((TagRole::Definition, TagKind::Interface))
        } else if same(name, "definition.macro") {
            Some((TagRole::Definition, TagKind::Macro))
        } else if same(name, "definition.module") {
            Some((TagRole::Definition, TagKind::Module))
        } else if same(name, "definition.section") {
            Some((TagRole::Definition, TagKind::Section))
        } else if same(name, "definition.struct") {
            Some((TagRole::Definition, TagKind::Struct))
        } else if same(name, "definition.type") {
            Some((TagRole::Definition, TagKind::Type))
        } else if same(name, "reference.call") {
            Some((TagRole::Reference, TagKind::Call))
        } else if same(name, "reference.class") {
            Some((TagRole::Reference, TagKind::ClassRef))
        } else if same(name, "reference.implementation") {
            Some((TagRole::Reference, TagKind::ImplementationRef))
        } else {
            None
        }
    }
}

/// The label of a role and a kind: their names with a dot between.
pub open spec fn label(role: TagRole, kind: TagKind) -> Seq<char> {
    role.name() + "."@ + kind.name()
}

/// A definition or a reference in a document.
#[derive(Debug)]
pub struct Tag {
    pub kind: TagKind,
    pub role: TagRole,
    pub name: String,
    /// Char offset of the `@name` capture start, used for cursor placement.
    pub start: usize,
    /// Char offset of the `@name` capture end, used for cursor placement.
    pub end: usize,
    /// Line of the tag node start, used for preview.
    pub start_line: usize,
    /// Line of the tag node end, used for preview.
    pub end_line: usize,
    pub doc: UriOrDocumentId,
}

/// The value of a [`Tag`].
pub struct TagView {
    pub kind: TagKind,
    pub role: TagRole,
    pub name: Seq<char>,
    pub start: int,
    pub end: int,
    pub start_line: int,
    pub end_line: int,
    pub doc: DocView,
}

impl View for Tag {
    type V = TagView;

    open spec fn view(&self) -> TagView {
        TagView {
            kind: self.kind,
            role: self.role,
            name: self.name@,
            start: self.start as int,
            end: self.end as int,
            start_line: self.start_line as int,
            end_line: self.end_line as int,
            doc: self.doc@,
        }
    }
}

/// The values of a list of tags.
pub open spec fn tag_views(tags: Seq<Tag>) -> Seq<TagView> {
    tags.map_values(|t: Tag| t@)
}

/// What tells the capture names apart: their lengths, and two of their characters.
proof fn capture_names_differ()
    ensures
        "definition.class"@.len() == 16,
        "definition.class"@[0] == 'd' && "definition.class"@[11] == 'c',
        "definition.constant"@.len() == 19,
        "definition.constant"@[0] == 'd' && "definition.constant"@[11] == 'c',
        "definition.enum"@.len() == 15,
        "definition.enum"@[0] == 'd' && "definition.enum"@[11] == 'e',
        "definition.field"@.len() == 16,
        "definition.field"@[0] == 'd' && "definition.field"@[11] == 'f',
        "definition.function"@.len() == 19,
        "definition.function"@[0] == 'd' && "definition.function"@[11] == 'f',
        "definition.interface"@.len() == 20,
        "definition.interface"@[0] == 'd' && "definition.interface"@[11] == 'i',
        "definition.macro"@.len() == 16,
        "definition.macro"@[0] == 'd' && "definition.macro"@[11] == 'm',
        "definition.module"@.len() == 17,
        "definition.module"@[0] == 'd' && "definition.module"@[11] == 'm',
        "definition.section"@.len() == 18,
        "definition.section"@[0] == 'd' && "definition.section"@[11] == 's',
        "definition.struct"@.len() == 17,
        "definition.struct"@[0] == 'd' && "definition.struct"@[11] == 's',
        "definition.type"@.len() == 15,
        "definition.type"@[0] == 'd' && "definition.type"@[11] == 't',
        "reference.call"@.len() == 14,
        "reference.call"@[0] == 'r' && "reference.call"@[11] == 'a',
        "reference.class"@.len() == 15,
        "reference.class"@[0] == 'r' && "reference.class"@[11] == 'l',
        "reference.implementation"@.len() == 24,
        "reference.implementation"@[0] == 'r' && "reference.implementation"@[11] == 'm',
{
    reveal_strlit("definition.class");
    reveal_strlit("definition.constant");
    reveal_strlit("definition.enum");
    reveal_strlit("definition.field");
    reveal_strlit("definition.function");
    reveal_strlit("definition.interface");
    reveal_strlit("definition.macro");
    reveal_strlit("definition.module");
    reveal_strlit("definition.section");
    reveal_strlit("definition.struct");
    reveal_strlit("definition.type");
    reveal_strlit("reference.call");
    reveal_strlit("reference.class");
    reveal_strlit("reference.implementation");
}

/// The label of a kind, in one piece.
spec fn spelling(kind: TagKind) -> Seq<char> {
    match kind {
        TagKind::Class => "definition.class"@,
        TagKind::Constant => "definition.constant"@,
        TagKind::Enum => "definition.enum"@,
        TagKind::Field => "definition.field"@,
        TagKind::Function => "definition.function"@,
        TagKind::Interface => "definition.interface"@,
        TagKind::Macro => "definition.macro"@,
        TagKind::Module => "definition.module"@,
        TagKind::Section => "definition.section"@,
        TagKind::Struct => "definition.struct"@,
        TagKind::Type => "definition.type"@,
        TagKind::Call => "reference.call"@,
        TagKind::ClassRef => "reference.class"@,
        TagKind::ImplementationRef => "reference.implementation"@,
    }
}

proof fn label_spelled(kind: TagKind)
    ensures
        label(kind.role(), kind) == spelling(kind),
{
    reveal_strlit("definition");
    reveal_strlit("reference");
    reveal_strlit(".");
    match kind {
        TagKind::Class => {
            reveal_strlit("class");
            reveal_strlit("definition.class");
        },
        TagKind::Constant => {
            reveal_strlit("constant");
            reveal_strlit("definition.constant");
        },
        TagKind::Enum => {
            reveal_strlit("enum");
            reveal_strlit("definition.enum");
        },
        TagKind::Field => {
            reveal_strlit("field");
            reveal_strlit("definition.field");
        },
        TagKind::Function => {
            reveal_strlit("function");
            reveal_strlit("definition.function");
        },
        TagKind::Interface => {
            reveal_strlit("interface");
            reveal_strlit("definition.interface");
        },
        TagKind::Macro => {
            reveal_strlit("macro");
            reveal_strlit("definition.macro");
        },
        TagKind::Module => {
            reveal_strlit("module");
            reveal_strlit("definition.module");
        },
        TagKind::Section => {
            reveal_strlit("section");
            reveal_strlit("definition.section");
        },
        TagKind::Struct => {
            reveal_strlit("struct");
            reveal_strlit("definition.struct");
        },
        TagKind::Type => {
            reveal_strlit("type");
            reveal_strlit("definition.type");
        },
        TagKind::Call => {
            reveal_strlit("call");
            reveal_strlit("reference.call");
        },
        TagKind::ClassRef => {
            reveal_strlit("class");
            reveal_strlit("reference.class");
        },
        TagKind::ImplementationRef => {
            reveal_strlit("implementation");
            reveal_strlit("reference.implementation");
        },
    }
    assert(label(kind.role(), kind) =~= spelling(kind));
}

/// Capture names and labels are one notation: a capture name announces a tag exactly if it is
/// the tag's label, and the tag's role is then the one that goes with its kind. So no two kinds
/// share a label, and reading a label back gives the tag that it was written for.
pub proof fn capture_name_is_label(name: Seq<char>, role: TagRole, kind: TagKind)
    ensures
        tag_of_capture(name) == Some((role, kind)) <==> (role == kind.role() && name == label(
            role,
            kind,
        )),
{
    label_spelled(kind);
    capture_names_differ();
}

/// The capture `name` announces no tag.
pub proof fn name_capture_is_no_tag()
    ensures
        tag_of_capture("name"@) is None,
{
    reveal_strlit("name");
    capture_names_differ();
}

/// The names of roles and kinds. A reference to a class has the name that a class has.
pub proof fn names_are_spelled()
    ensures
        TagRole::Definition.name() == "definition"@,
        TagRole::Reference.name() == "reference"@,
        TagKind::Class.name() == "class"@,
        TagKind::Constant.name() == "constant"@,
        TagKind::Enum.name() == "enum"@,
        TagKind::Field.name() == "field"@,
        TagKind::Function.name() == "function"@,
        TagKind::Interface.name() == "interface"@,
        TagKind::Macro.name() == "macro"@,
        TagKind::Module.name() == "module"@,
        TagKind::Section.name() == "section"@,
        TagKind::Struct.name() == "struct"@,
        TagKind::Type.name() == "type"@,
        TagKind::Call.name() == "call"@,
        TagKind::ClassRef.name() == "class"@,
        TagKind::ImplementationRef.name() == "implementation"@,
{
}

/// A capture name announces a tag exactly if what stands before its first dot is the name of a
/// role, and what stands after it is the name of a kind that has this role. References are calls,
/// references to classes and references to implementations; all else is defined.
pub proof fn capture_name_is_split_at_dot(
    name: &str,
    role_text: Seq<char>,
    kind_text: Seq<char>,
    r: Option<(TagRole, TagKind)>,
)
    requires
        call_ensures(TagKind::from_capture_name, (name,), r),
        !role_text.contains('.'),
        name@ == role_text.push('.') + kind_text,
    ensures
        role_text == "definition"@ ==> {
            &&& r == Some((TagRole::Definition, TagKind::Class)) <==> kind_text == "class"@
            &&& r == Some((TagRole::Definition, TagKind::Constant)) <==> kind_text == "constant"@
            &&& r == Some((TagRole::Definition, TagKind::Enum)) <==> kind_text == "enum"@
            &&& r == Some((TagRole::Definition, TagKind::Field)) <==> kind_text == "field"@
            &&& r == Some((TagRole::Definition, TagKind::Function)) <==> kind_text == "function"@
            &&& r == Some((TagRole::Definition, TagKind::Interface)) <==> kind_text == "interface"@
            &&& r == Some((TagRole::Definition, TagKind::Macro)) <==> kind_text == "macro"@
            &&& r == Some((TagRole::Definition, TagKind::Module)) <==> kind_text == "module"@
            &&& r == Some((TagRole::Definition, TagKind::Section)) <==> kind_text == "section"@
            &&& r == Some((TagRole::Definition, TagKind::Struct)) <==> kind_text == "struct"@
            &&& r == Some((TagRole::Definition, TagKind::Type)) <==> kind_text == "type"@
            &&& r matches Some((role, _)) ==> role == TagRole::Definition
        },
        role_text == "reference"@ ==> {
            &&& r == Some((TagRole::Reference, TagKind::Call)) <==> kind_text == "call"@
            &&& r == Some((TagRole::Reference, TagKind::ClassRef)) <==> kind_text == "class"@
            &&& r == Some((TagRole::Reference, TagKind::ImplementationRef)) <==> kind_text
                == "implementation"@
            &&& r matches Some((role, _)) ==> role == TagRole::Reference
        },
        role_text != "definition"@ && role_text != "reference"@ ==> r is None,
        r matches Some((_, kind)) ==> (role_text == "reference"@ <==> (kind == TagKind::Call || kind
            == TagKind::ClassRef || kind == TagKind::ImplementationRef)),
{
    names_are_spelled();
    role_names_have_no_dot();
    reveal_strlit(".");
    let dot = role_text.len() as int;
    assert(name@.take(dot) =~= role_text);
    assert(name@.skip(dot + 1) =~= kind_text);
    if let Some((role, kind)) = r {
        capture_name_is_label(name@, role, kind);
        first_dot_splits(role_text, kind_text, role.name(), kind.name());
    }
    kind_is_read_back(name@, role_text, kind_text, TagKind::Class);
    kind_is_read_back(name@, role_text, kind_text, TagKind::Constant);
    kind_is_read_back(name@, role_text, kind_text, TagKind::Enum);
    kind_is_read_back(name@, role_text, kind_text, TagKind::Field);
    kind_is_read_back(name@, role_text, kind_text, TagKind::Function);
    kind_is_read_back(name@, role_text, kind_text, TagKind::Interface);
    kind_is_read_back(name@, role_text, kind_text, TagKind::Macro);
    kind_is_read_back(name@, role_text, kind_text, TagKind::Module);
    kind_is_read_back(name@, role_text, kind_text, TagKind::Section);
    kind_is_read_back(name@, role_text, kind_text, TagKind::Struct);
    kind_is_read_back(name@, role_text, kind_text, TagKind::Type);
    kind_is_read_back(name@, role_text, kind_text, TagKind::Call);
    kind_is_read_back(name@, role_text, kind_text, TagKind::ClassRef);
    kind_is_read_back(name@, role_text, kind_text, TagKind::ImplementationRef);
}

proof fn role_names_have_no_dot()
    ensures
        !"definition"@.contains('.'),
        !"reference"@.contains('.'),
        "definition"@ != "reference"@,
{
    reveal_strlit("definition");
    reveal_strlit("reference");
    assert("definition"@.len() != "reference"@.len());
}

proof fn first_dot_splits(a: Seq<char>, b: Seq<char>, x: Seq<char>, y: Seq<char>)
    requires
        !a.contains('.'),
        !x.contains('.'),
        a.push('.') + b == x + "."@ + y,
    ensures
        a == x,
        b == y,
{
    reveal_strlit(".");
    let whole = a.push('.') + b;
    assert(whole[a.len() as int] == '.');
    assert(whole[x.len() as int] == '.');
    if a.len() < x.len() {
        assert(x[a.len() as int] == whole[a.len() as int]);
    } else if x.len() < a.len() {
        assert(a[x.len() as int] == whole[x.len() as int]);
    }
    assert(a =~= whole.take(a.len() as int));
    assert(x =~= whole.take(a.len() as int));
    assert(b =~= whole.skip(a.len() as int + 1));
    assert(y =~= whole.skip(a.len() as int + 1));
}

proof fn kind_is_read_back(
    name: Seq<char>,
    role_text: Seq<char>,
    kind_text: Seq<char>,
    kind: TagKind,
)
    requires
        name == role_text.push('.') + kind_text,
    ensures
        role_text == kind.role().name() && kind_text == kind.name() ==> tag_of_capture(name)
            == Some((kind.role(), kind)),
{
    reveal_strlit(".");
    if role_text == kind.role().name() && kind_text == kind.name() {
        assert(name =~= label(kind.role(), kind));
        capture_name_is_label(name, kind.role(), kind);
    }
}

/// A capture name without a dot announces nothing.
pub proof fn capture_name_needs_dot(name: &str, r: Option<(TagRole, TagKind)>)
    requires
        call_ensures(TagKind::from_capture_name, (name,), r),
        !name@.contains('.'),
    ensures
        r is None,
{
    if let Some((role, kind)) = r {
        capture_name_is_label(name@, role, kind);
        reveal_strlit(".");
        assert(name@[role.name().len() as int] == '.');
    }
}

/// Tags are told apart by all that they hold.
pub proof fn tags_are_told_by_fields(a: Tag, b: Tag)
    ensures
        a@ == b@ <==> (a.kind == b.kind && a.role == b.role && a.name@ == b.name@ && a.start
            == b.start && a.end == b.end && a.start_line == b.start_line && a.end_line
            == b.end_line && a.doc@ == b.doc@),
        a@.kind == a.kind,
        a@.role == a.role,
        a@.name == a.name@,
        a@.start == a.start,
        a@.end == a.end,
        a@.start_line == a.start_line,
        a@.end_line == a.end_line,
        a@.doc == a.doc@,
{
}

/// A list of tags is read tag by tag.
pub proof fn tags_are_read_one_by_one(tags: Seq<Tag>)
    ensures
        tag_views(tags).len() == tags.len(),
        forall|i: int| 0 <= i < tags.len() ==> #[trigger] tag_views(tags)[i] == tags[i]@,
{
}

} // verus!
