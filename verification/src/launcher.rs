//! Launcher scripts for console-script entry points.

use vstd::prelude::*;
use vstd::string::StringExecFns;

verus! {

/// The lines between the shebang and the import of the entry point: the
/// coding line and the two modules the stub itself needs.
pub const PREAMBLE: &'static str = "    # -*- coding: utf-8 -*-\nimport re\nimport sys\n";

/// The lines between the import and the call: the main guard, the line that
/// strips a `-script.pyw` or `.exe` suffix from `argv[0]`, and the start of
/// the exit with the entry point's return value.
pub const MAIN_GUARD: &'static str =
    "if __name__ == '__main__':\n    sys.argv[0] = re.sub(r'(-script\\.pyw|\\.exe)?$', '', sys.argv[0])\n    sys.exit(";

/// The first line of a launcher, without its newline.
pub open spec fn shebang_line(python: Seq<char>) -> Seq<char> {
    "#!"@ + python
}

/// The import line of a launcher, without its newline.
pub open spec fn import_line(import_from: Seq<char>, function: Seq<char>) -> Seq<char> {
    "from "@ + import_from + " import "@ + function
}

/// The text of the launcher that runs `function` of module `import_from` under
/// the interpreter at `python`.
pub open spec fn launcher_text(
    python: Seq<char>,
    import_from: Seq<char>,
    function: Seq<char>,
) -> Seq<char> {
    shebang_line(python) + "\n"@ + PREAMBLE@ + import_line(import_from, function) + "\n"@
        + MAIN_GUARD@ + function + "())\n"@
}

/// Renders the POSIX launcher script for one console script. Nothing is
/// checked of the three texts: they are substituted as they are, so equal
/// arguments always give the same script.
pub fn unix_launcher_script(python: &str, import_from: &str, function: &str) -> (script: String)
    ensures
        script@ == launcher_text(python@, import_from@, function@),
{
    let mut script = String::from_str("#!");
    script.append(python);
    script.append("\n");
    script.append(PREAMBLE);
    assert(script@ == shebang_line(python@) + "\n"@ + PREAMBLE@);
    let mut import = String::from_str("from ");
    import.append(import_from);
    import.append(" import ");
    import.append(function);
    script.append(import.as_str());
    script.append("\n");
    script.append(MAIN_GUARD);
    script.append(function);
    script.append("())\n");
    script
}

/// A launcher opens with its shebang line: `#!`, the interpreter path as it
/// was given, and a newline.
pub proof fn lemma_launcher_opens_with_shebang(
    python: Seq<char>,
    import_from: Seq<char>,
    function: Seq<char>,
)
    ensures
        shebang_line(python).len() == 2 + python.len(),
        launcher_text(python, import_from, function).len() > shebang_line(python).len(),
        launcher_text(python, import_from, function).subrange(0, 2 + python.len() as int)
            == shebang_line(python),
        launcher_text(python, import_from, function)[2 + python.len() as int] == '\n',
{
    reveal_strlit("#!");
    reveal_strlit("\n");
    let head = shebang_line(python) + "\n"@;
    let tail = PREAMBLE@ + import_line(import_from, function) + "\n"@ + MAIN_GUARD@ + function
        + "())\n"@;
    assert(launcher_text(python, import_from, function) =~= head + tail);
    let end = 2 + python.len() as int;
    assert(head.subrange(0, end) =~= shebang_line(python));
    assert((head + tail).subrange(0, end) =~= head.subrange(0, end));
}

/// The offset of the import line in a launcher.
pub open spec fn import_line_offset(python: Seq<char>) -> int {
    shebang_line(python).len() + 1 + PREAMBLE@.len() as int
}

/// A launcher holds the import line of its entry point, as a whole line: a
/// newline stands before it and after it.
pub proof fn lemma_launcher_holds_import_line(
    python: Seq<char>,
    import_from: Seq<char>,
    function: Seq<char>,
)
    ensures
        ({
            let text = launcher_text(python, import_from, function);
            let line = import_line(import_from, function);
            let at = import_line_offset(python);
            &&& 0 < at
            &&& at + line.len() < text.len()
            &&& text.subrange(at, at + line.len()) == line
            &&& text[at - 1] == '\n'
            &&& text[at + line.len()] == '\n'
        }),
{
    reveal_strlit("\n");
    reveal_strlit("    # -*- coding: utf-8 -*-\nimport re\nimport sys\n");
    let text = launcher_text(python, import_from, function);
    let line = import_line(import_from, function);
    let at = import_line_offset(python);
    let head = shebang_line(python) + "\n"@ + PREAMBLE@;
    let tail = "\n"@ + MAIN_GUARD@ + function + "())\n"@;
    assert(text =~= head + line + tail);
    assert(head.len() == at);
    assert(text.subrange(at, at + line.len()) =~= line);
}

} // verus!
