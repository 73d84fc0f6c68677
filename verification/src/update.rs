use vstd::prelude::*;

verus! {

/// One subprocess to run: a program resolved on the search path, its
/// arguments, and the working directory to run it in.
pub struct Invocation {
    pub cwd: String,
    pub program: String,
    pub args: Vec<String>,
}

impl View for Invocation {
    type V = InvocationModel;

    open spec fn view(&self) -> InvocationModel {
        InvocationModel {
            cwd: self.cwd@,
            program: self.program@,
            args: self.args.deep_view(),
        }
    }
}

impl DeepView for Invocation {
    type V = InvocationModel;

    open spec fn deep_view(&self) -> InvocationModel {
        self.view()
    }
}

/// The mathematical shape of one subprocess invocation.
#[verifier::ext_equal]
pub struct InvocationModel {
    pub cwd: Seq<char>,
    pub program: Seq<char>,
    pub args: Seq<Seq<char>>,
}

/// The fixed, ordered action triple every working copy is driven through:
/// a hard reset, a clean of untracked files and directories, then a pull.
pub open spec fn actions() -> Seq<Seq<Seq<char>>> {
    seq![seq!["reset"@, "--hard"@], seq!["clean"@, "-df"@], seq!["pull"@]]
}

/// The plan for one working copy: exactly three invocations of `git`, in
/// the fixed action order, each with the working copy as its directory.
pub open spec fn update_plan(path: Seq<char>) -> Seq<InvocationModel> {
    actions().map_values(
        |args: Seq<Seq<char>>| InvocationModel { cwd: path, program: "git"@, args },
    )
}

/// Build the three subprocess invocations for one working copy.
pub fn update_commands(path: &String) -> (r: Vec<Invocation>)
    ensures
        r.deep_view() == update_plan(path@),
{
    let mut r: Vec<Invocation> = Vec::new();
    let mut reset: Vec<String> = Vec::new();
    reset.push(String::from_str("reset"));
    reset.push(String::from_str("--hard"));
    r.push(Invocation { cwd: path.clone(), program: String::from_str("git"), args: reset });
    let mut clean: Vec<String> = Vec::new();
    clean.push(String::from_str("clean"));
    clean.push(String::from_str("-df"));
    r.push(Invocation { cwd: path.clone(), program: String::from_str("git"), args: clean });
    let mut pull: Vec<String> = Vec::new();
    pull.push(String::from_str("pull"));
    r.push(Invocation { cwd: path.clone(), program: String::from_str("git"), args: pull });
    assert(r.deep_view() =~~= update_plan(path@));
    r
}

/// One piece of the text a worker emits: either character text of the
/// tool's own (the header and the blank separator lines) or the captured
/// bytes of a subprocess, passed through verbatim.
pub enum Chunk {
    Text(String),
    Raw(Vec<u8>),
}

impl View for Chunk {
    type V = ChunkModel;

    open spec fn view(&self) -> ChunkModel {
        match self {
            Chunk::Text(s) => ChunkModel::Text(s@),
            Chunk::Raw(b) => ChunkModel::Raw(b@),
        }
    }
}

impl DeepView for Chunk {
    type V = ChunkModel;

    open spec fn deep_view(&self) -> ChunkModel {
        self.view()
    }
}

/// The mathematical shape of one emitted piece.
#[verifier::ext_equal]
pub enum ChunkModel {
    Text(Seq<char>),
    Raw(Seq<u8>),
}

/// The banner line announcing one working copy, with the blank line that
/// precedes it and the line break that ends it.
pub open spec fn header_line(path: Seq<char>) -> Seq<char> {
    "\nupdate path: "@ + path + "\n"@
}

/// What one captured result contributes to the output: a blank line and
/// the captured standard-output bytes, verbatim, when the subprocess was
/// spawned at all; nothing when it was not.
pub open spec fn block_of(out: Option<Seq<u8>>) -> Seq<ChunkModel> {
    match out {
        Some(b) => seq![ChunkModel::Text("\n"@), ChunkModel::Raw(b)],
        None => Seq::empty(),
    }
}

/// The blocks for the captured results, in issue order.
pub open spec fn output_blocks(outs: Seq<Option<Seq<u8>>>) -> Seq<ChunkModel>
    decreases outs.len(),
{
    if outs.len() == 0 {
        Seq::empty()
    } else {
        output_blocks(outs.drop_last()) + block_of(outs.last())
    }
}

/// Everything one worker emits: the header first, then the blocks of the
/// captured results in issue order.
pub open spec fn rendered_output(path: Seq<char>, outs: Seq<Option<Seq<u8>>>) -> Seq<ChunkModel> {
    seq![ChunkModel::Text(header_line(path))] + output_blocks(outs)
}

/// Render the output of one update task, once all of its subprocesses
/// have completed: the header, then each captured standard output in the
/// order the actions were issued. A result of `None` records a subprocess
/// that could not be spawned; it contributes nothing.
pub fn render_update(path: &String, outs: &Vec<Option<Vec<u8>>>) -> (r: Vec<Chunk>)
    ensures
        r.deep_view() == rendered_output(path@, outs.deep_view()),
{
    let mut r: Vec<Chunk> = Vec::new();
    let header = String::from_str("\nupdate path: ").concat(path.as_str()).concat("\n");
    r.push(Chunk::Text(header));
    assert(r.deep_view() =~~= rendered_output(path@, outs.deep_view().take(0)));
    let mut i: usize = 0;
    while i < outs.len()
        invariant
            i <= outs.len(),
            r.deep_view() == rendered_output(path@, outs.deep_view().take(i as int)),
        decreases outs.len() - i,
    {
        let ghost pre = r.deep_view();
        match &outs[i] {
            Some(b) => {
                r.push(Chunk::Text(String::from_str("\n")));
                r.push(Chunk::Raw(vstd::slice::slice_to_vec(b.as_slice())));
                assert(r.deep_view() =~~= pre + block_of(outs.deep_view()[i as int]));
            },
            None => {
                assert(r.deep_view() =~~= pre + block_of(outs.deep_view()[i as int]));
            },
        }
        proof {
            let dv = outs.deep_view();
            assert(dv.take(i + 1).drop_last() == dv.take(i as int));
            assert(rendered_output(path@, dv.take(i + 1)) =~~= rendered_output(
                path@,
                dv.take(i as int),
            ) + block_of(dv[i as int]));
        }
        assert(r.deep_view() =~~= rendered_output(path@, outs.deep_view().take(i + 1)));
        i = i + 1;
    }
    assert(outs.deep_view().take(outs@.len() as int) == outs.deep_view());
    r
}

/// Within one update task the header precedes every subprocess-output
/// block: it is the first piece emitted, and everything after it is the
/// blocks in issue order.
pub proof fn lemma_header_precedes_blocks(path: Seq<char>, outs: Seq<Option<Seq<u8>>>)
    ensures
        rendered_output(path, outs).len() >= 1,
        rendered_output(path, outs)[0] == ChunkModel::Text(header_line(path)),
        rendered_output(path, outs).skip(1) == output_blocks(outs),
{
    assert(rendered_output(path, outs).skip(1) =~= output_blocks(outs));
}

} // verus!
