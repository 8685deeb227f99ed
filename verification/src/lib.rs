//! Generator for a hardware-description-language accessor module.
//!
//! Given a list of registers and a list of memories inside a simulated
//! circuit, the library synthesizes one HDL module that grants a host
//! program indirect, width-safe read and write access to each element
//! through entry points dispatched by a numeric hardware id.  All data
//! moves in 32-bit selector-addressed chunks, so elements of arbitrary
//! declared width are backed by buffers rounded up to a multiple of 32
//! bits.  The module text is assembled as a tree of document fragments
//! and rendered with an indentation-aware layout function; every step
//! from the element lists to the final text is specified and verified.

use vstd::prelude::*;
use vstd::string::StringExecFns;

pub mod awig;
pub mod doc;
pub mod verilator;

verus! {

/// A scalar storage cell inside the simulated circuit, identified for
/// dispatch purposes by `hid`, located by the dotted hierarchical
/// reference `path`, and `width` bits wide.
pub struct Register {
    pub hid: u32,
    pub path: String,
    pub width: u32,
}

/// An addressable array inside the simulated circuit; `width` is the
/// bit width of one element.
pub struct Memory {
    pub hid: u32,
    pub path: String,
    pub width: u32,
}

/// The mathematical model of a storage element: registers and memories
/// share one shape.
pub struct ElemView {
    pub hid: u32,
    pub path: Seq<char>,
    pub width: u32,
}

impl View for Register {
    type V = ElemView;

    open spec fn view(&self) -> ElemView {
        ElemView { hid: self.hid, path: self.path@, width: self.width }
    }
}

impl DeepView for Register {
    type V = ElemView;

    open spec fn deep_view(&self) -> ElemView {
        self.view()
    }
}

impl View for Memory {
    type V = ElemView;

    open spec fn view(&self) -> ElemView {
        ElemView { hid: self.hid, path: self.path@, width: self.width }
    }
}

impl DeepView for Memory {
    type V = ElemView;

    open spec fn deep_view(&self) -> ElemView {
        self.view()
    }
}

/// `a` and `b` joined by one path separator.
pub open spec fn sp_join(a: Seq<char>, b: Seq<char>) -> Seq<char> {
    a + "/"@ + b
}

/// Join two path fragments with a separator.
pub fn path_join(a: &str, b: &str) -> (r: String)
    ensures
        r@ == sp_join(a@, b@),
{
    let mut r = a.to_owned();
    r.append("/");
    r.append(b);
    r
}

/// Pushing onto a vector pushes the element's model onto the vector's
/// model.
pub(crate) proof fn lemma_vec_push_deep_view<T: DeepView>(a: Vec<T>, b: Vec<T>, x: T)
    requires
        b@ == a@.push(x),
    ensures
        b.deep_view() == a.deep_view().push(x.deep_view()),
{
    assert(b.deep_view() =~= a.deep_view().push(x.deep_view()));
}

pub(crate) fn push_string(args: &mut Vec<String>, s: String)
    ensures
        final(args).deep_view() == old(args).deep_view().push(s@),
{
    let ghost pre = *args;
    args.push(s);
    proof {
        lemma_vec_push_deep_view(pre, *args, args@.last());
    }
}

/// The name of the generated accessor module wrapping a virtual top.
pub open spec fn sp_awig_module_name(vtop: Seq<char>) -> Seq<char> {
    vtop + "_dpi"@
}

/// The file name the accessor module is written under.
pub open spec fn sp_awig_file_name(vtop: Seq<char>) -> Seq<char> {
    sp_awig_module_name(vtop) + ".v"@
}

/// Each directory as one `-I<dir>` argument.
pub open spec fn sp_dash_i(dirs: Seq<Seq<char>>) -> Seq<Seq<char>> {
    dirs.map_values(|d: Seq<char>| "-I"@ + d)
}

/// Each warning class as one `-Wno-<warning>` argument.
pub open spec fn sp_dash_wno(warnings: Seq<Seq<char>>) -> Seq<Seq<char>> {
    warnings.map_values(|w: Seq<char>| "-Wno-"@ + w)
}

/// Each library as one `-l<lib>` argument.
pub open spec fn sp_dash_l(libs: Seq<Seq<char>>) -> Seq<Seq<char>> {
    libs.map_values(|l: Seq<char>| "-l"@ + l)
}

/// Each directory as a two-argument pair: the flag, then the
/// directory.
pub open spec fn sp_dash_pairs(flag: Seq<char>, dirs: Seq<Seq<char>>) -> Seq<Seq<char>>
    decreases dirs.len(),
{
    if dirs.len() == 0 {
        Seq::empty()
    } else {
        sp_dash_pairs(flag, dirs.drop_last()) + seq![flag, dirs.last()]
    }
}

/// The native source list of a default build.
pub open spec fn sp_default_cc_files(b: BuildView, root: Seq<char>) -> Seq<Seq<char>> {
    let inc = sp_join(root, "verilator/build/share/verilator/include"@);
    let out = b.out_dir->0;
    let vtop = b.virtual_top_name->0;
    b.cc_files.push(sp_join(inc, "verilated.cpp"@)).push(sp_join(inc, "verilated_dpi.cpp"@)).push(
        sp_join(out, b.tool_name + ".cc"@),
    ).push(sp_join(out, "V"@ + vtop + ".cpp"@)).push(sp_join(out, "V"@ + vtop + "__Syms.cpp"@)).push(
        sp_join(out, "V"@ + vtop + "__Dpi.cpp"@),
    )
}

/// The include-directory list of a default build.
pub open spec fn sp_default_include_dirs(b: BuildView, root: Seq<char>) -> Seq<Seq<char>> {
    let inc = sp_join(root, "include/lastlayer"@);
    let ver = sp_join(root, "verilator/build/share/verilator/include"@);
    b.cc_include_dirs.push(b.out_dir->0).push(ver).push(sp_join(ver, "vltstd"@)).push(inc)
}

/// The simulator invocation for a configuration.
pub open spec fn sp_verilator_args(b: BuildView) -> Seq<Seq<char>> {
    seq![
        "--cc"@,
        "-Mdir"@,
        b.out_dir->0,
        "--top-module"@,
        b.virtual_top_name->0,
        "--assert"@,
    ] + sp_dash_i(b.verilog_include_dirs) + b.verilog_files + sp_dash_wno(b.verilog_warnings)
}

/// The native-compiler invocation for a configuration and a library
/// name.
pub open spec fn sp_cxx_args(b: BuildView, name: Seq<char>) -> Seq<Seq<char>> {
    seq!["-shared"@, "-faligned-new"@, "-shared"@, "-fPIC"@] + sp_dash_pairs(
        "-I"@,
        b.cc_include_dirs,
    ) + sp_dash_pairs("-L"@, b.cc_link_dirs) + sp_dash_l(b.cc_link_libs) + b.cc_flags + b.cc_files
        + seq!["-o"@, sp_join(b.out_dir->0, "lib"@ + name + ".so"@)]
}

/// The configuration of one simulator build: the names and file lists
/// that the surrounding tooling hands to the generator and to the
/// external compilers.
pub struct Build {
    tool_name: String,
    virtual_top_name: Option<String>,
    top_name: Option<String>,
    clock_name: Option<String>,
    reset_name: Option<String>,
    verilog_warnings: Vec<String>,
    verilog_files: Vec<String>,
    verilog_include_dirs: Vec<String>,
    cc_flags: Vec<String>,
    cc_include_dirs: Vec<String>,
    cc_link_dirs: Vec<String>,
    cc_link_libs: Vec<String>,
    cc_files: Vec<String>,
    out_dir: Option<String>,
    handlebars_dir: Option<String>,
    bin: Option<String>,
    reg: Vec<Register>,
    mem: Vec<Memory>,
}

/// The mathematical model of a build configuration.
pub struct BuildView {
    pub tool_name: Seq<char>,
    pub virtual_top_name: Option<Seq<char>>,
    pub top_name: Option<Seq<char>>,
    pub clock_name: Option<Seq<char>>,
    pub reset_name: Option<Seq<char>>,
    pub verilog_warnings: Seq<Seq<char>>,
    pub verilog_files: Seq<Seq<char>>,
    pub verilog_include_dirs: Seq<Seq<char>>,
    pub cc_flags: Seq<Seq<char>>,
    pub cc_include_dirs: Seq<Seq<char>>,
    pub cc_link_dirs: Seq<Seq<char>>,
    pub cc_link_libs: Seq<Seq<char>>,
    pub cc_files: Seq<Seq<char>>,
    pub out_dir: Option<Seq<char>>,
    pub handlebars_dir: Option<Seq<char>>,
    pub bin: Option<Seq<char>>,
    pub reg: Seq<ElemView>,
    pub mem: Seq<ElemView>,
}

impl View for Build {
    type V = BuildView;

    closed spec fn view(&self) -> BuildView {
        BuildView {
            tool_name: self.tool_name@,
            virtual_top_name: self.virtual_top_name.deep_view(),
            top_name: self.top_name.deep_view(),
            clock_name: self.clock_name.deep_view(),
            reset_name: self.reset_name.deep_view(),
            verilog_warnings: self.verilog_warnings.deep_view(),
            verilog_files: self.verilog_files.deep_view(),
            verilog_include_dirs: self.verilog_include_dirs.deep_view(),
            cc_flags: self.cc_flags.deep_view(),
            cc_include_dirs: self.cc_include_dirs.deep_view(),
            cc_link_dirs: self.cc_link_dirs.deep_view(),
            cc_link_libs: self.cc_link_libs.deep_view(),
            cc_files: self.cc_files.deep_view(),
            out_dir: self.out_dir.deep_view(),
            handlebars_dir: self.handlebars_dir.deep_view(),
            bin: self.bin.deep_view(),
            reg: self.reg.deep_view(),
            mem: self.mem.deep_view(),
        }
    }
}

impl Build {
    fn get_top_name(&self) -> (r: String)
        requires
            self@.top_name is Some,
        ensures
            Some(r@) == self@.top_name,
    {
        self.top_name.as_ref().unwrap().clone()
    }

    fn get_virtual_top_name(&self) -> (r: String)
        requires
            self@.virtual_top_name is Some,
        ensures
            Some(r@) == self@.virtual_top_name,
    {
        self.virtual_top_name.as_ref().unwrap().clone()
    }

    fn get_clock(&self) -> (r: String)
        requires
            self@.clock_name is Some,
        ensures
            Some(r@) == self@.clock_name,
    {
        self.clock_name.as_ref().unwrap().clone()
    }

    fn get_reset(&self) -> (r: String)
        requires
            self@.reset_name is Some,
        ensures
            Some(r@) == self@.reset_name,
    {
        self.reset_name.as_ref().unwrap().clone()
    }

    fn get_out_dir(&self) -> (r: String)
        requires
            self@.out_dir is Some,
        ensures
            Some(r@) == self@.out_dir,
    {
        self.out_dir.as_ref().unwrap().clone()
    }

    fn get_handlebars_dir(&self) -> (r: String)
        requires
            self@.handlebars_dir is Some,
        ensures
            Some(r@) == self@.handlebars_dir,
    {
        self.handlebars_dir.as_ref().unwrap().clone()
    }

    fn get_bin(&self) -> (r: String)
        requires
            self@.bin is Some,
        ensures
            Some(r@) == self@.bin,
    {
        self.bin.as_ref().unwrap().clone()
    }

    /// A fresh configuration rooted at the tool's own source tree:
    /// clock and reset carry their conventional names, the template
    /// and simulator paths hang off `root_dir`, and every list is
    /// empty.
    pub fn new(root_dir: &str) -> (b: Build)
        ensures
            b@.tool_name == "lastlayer"@,
            b@.virtual_top_name is None,
            b@.top_name is None,
            b@.clock_name == Some("clock"@),
            b@.reset_name == Some("reset"@),
            b@.verilog_warnings == Seq::<Seq<char>>::empty(),
            b@.verilog_files == Seq::<Seq<char>>::empty(),
            b@.verilog_include_dirs == Seq::<Seq<char>>::empty(),
            b@.cc_flags == Seq::<Seq<char>>::empty(),
            b@.cc_include_dirs == Seq::<Seq<char>>::empty(),
            b@.cc_link_dirs == Seq::<Seq<char>>::empty(),
            b@.cc_link_libs == Seq::<Seq<char>>::empty(),
            b@.cc_files == Seq::<Seq<char>>::empty(),
            b@.out_dir is None,
            b@.handlebars_dir == Some(sp_join(root_dir@, "src/handlebars"@)),
            b@.bin == Some(sp_join(root_dir@, "verilator/build/bin/verilator"@)),
            b@.reg == Seq::<ElemView>::empty(),
            b@.mem == Seq::<ElemView>::empty(),
    {
        let b = Build {
            tool_name: "lastlayer".to_owned(),
            virtual_top_name: None,
            top_name: None,
            clock_name: Some("clock".to_owned()),
            reset_name: Some("reset".to_owned()),
            verilog_warnings: Vec::new(),
            verilog_files: Vec::new(),
            verilog_include_dirs: Vec::new(),
            cc_flags: Vec::new(),
            cc_include_dirs: Vec::new(),
            cc_link_dirs: Vec::new(),
            cc_link_libs: Vec::new(),
            cc_files: Vec::new(),
            out_dir: None,
            handlebars_dir: Some(path_join(root_dir, "src/handlebars")),
            bin: Some(path_join(root_dir, "verilator/build/bin/verilator")),
            reg: Vec::new(),
            mem: Vec::new(),
        };
        proof {
            assert(b@.verilog_warnings =~= Seq::<Seq<char>>::empty());
            assert(b@.verilog_files =~= Seq::<Seq<char>>::empty());
            assert(b@.verilog_include_dirs =~= Seq::<Seq<char>>::empty());
            assert(b@.cc_flags =~= Seq::<Seq<char>>::empty());
            assert(b@.cc_include_dirs =~= Seq::<Seq<char>>::empty());
            assert(b@.cc_link_dirs =~= Seq::<Seq<char>>::empty());
            assert(b@.cc_link_libs =~= Seq::<Seq<char>>::empty());
            assert(b@.cc_files =~= Seq::<Seq<char>>::empty());
            assert(b@.reg =~= Seq::<ElemView>::empty());
            assert(b@.mem =~= Seq::<ElemView>::empty());
        }
        b
    }

    /// Declare a scalar register for the generated accessor module.
    pub fn add_register(&mut self, hid: u32, path: &str, width: u32)
        ensures
            final(self)@ == (BuildView {
                reg: old(self)@.reg.push(ElemView { hid, path: path@, width }),
                ..old(self)@
            }),
    {
        let ghost pre = *self;
        self.reg.push(Register { hid, path: path.to_owned(), width });
        proof {
            lemma_vec_push_deep_view(pre.reg, self.reg, self.reg@.last());
        }
    }

    /// Declare an addressable memory for the generated accessor
    /// module.
    pub fn add_memory(&mut self, hid: u32, path: &str, width: u32)
        ensures
            final(self)@ == (BuildView {
                mem: old(self)@.mem.push(ElemView { hid, path: path@, width }),
                ..old(self)@
            }),
    {
        let ghost pre = *self;
        self.mem.push(Memory { hid, path: path.to_owned(), width });
        proof {
            lemma_vec_push_deep_view(pre.mem, self.mem, self.mem@.last());
        }
    }

    /// Silence one simulator warning class.
    pub fn verilog_disable_warning(&mut self, name: &str)
        ensures
            final(self)@ == (BuildView {
                verilog_warnings: old(self)@.verilog_warnings.push(name@),
                ..old(self)@
            }),
    {
        let ghost pre = *self;
        self.verilog_warnings.push(name.to_owned());
        proof {
            lemma_vec_push_deep_view(
                pre.verilog_warnings,
                self.verilog_warnings,
                self.verilog_warnings@.last(),
            );
        }
    }

    /// Name the top module of the user's design; the virtual top
    /// wrapping it takes the tool's prefix.
    pub fn top_module(&mut self, name: &str)
        ensures
            final(self)@ == (BuildView {
                top_name: Some(name@),
                virtual_top_name: Some("lastlayer_"@ + name@),
                ..old(self)@
            }),
    {
        self.top_name = Some(name.to_owned());
        let mut v = "lastlayer_".to_owned();
        v.append(name);
        self.virtual_top_name = Some(v);
    }

    /// Name the clock signal.
    pub fn clock(&mut self, name: &str)
        ensures
            final(self)@ == (BuildView { clock_name: Some(name@), ..old(self)@ }),
    {
        self.clock_name = Some(name.to_owned());
    }

    /// Name the reset signal.
    pub fn reset(&mut self, name: &str)
        ensures
            final(self)@ == (BuildView { reset_name: Some(name@), ..old(self)@ }),
    {
        self.reset_name = Some(name.to_owned());
    }

    /// Set the output directory.
    pub fn out_dir(&mut self, out: &str)
        ensures
            final(self)@ == (BuildView { out_dir: Some(out@), ..old(self)@ }),
    {
        self.out_dir = Some(out.to_owned());
    }

    /// Add one flag for the native compiler.
    pub fn cc_flag(&mut self, name: &str)
        ensures
            final(self)@ == (BuildView { cc_flags: old(self)@.cc_flags.push(name@), ..old(self)@ }),
    {
        let ghost pre = *self;
        self.cc_flags.push(name.to_owned());
        proof {
            lemma_vec_push_deep_view(pre.cc_flags, self.cc_flags, self.cc_flags@.last());
        }
    }

    /// Add one include directory for the native compiler.
    pub fn cc_include_dir(&mut self, dir: &str)
        ensures
            final(self)@ == (BuildView {
                cc_include_dirs: old(self)@.cc_include_dirs.push(dir@),
                ..old(self)@
            }),
    {
        let ghost pre = *self;
        self.cc_include_dirs.push(dir.to_owned());
        proof {
            lemma_vec_push_deep_view(
                pre.cc_include_dirs,
                self.cc_include_dirs,
                self.cc_include_dirs@.last(),
            );
        }
    }

    /// Add one linker search directory.
    pub fn cc_link_dir(&mut self, dir: &str)
        ensures
            final(self)@ == (BuildView {
                cc_link_dirs: old(self)@.cc_link_dirs.push(dir@),
                ..old(self)@
            }),
    {
        let ghost pre = *self;
        self.cc_link_dirs.push(dir.to_owned());
        proof {
            lemma_vec_push_deep_view(pre.cc_link_dirs, self.cc_link_dirs, self.cc_link_dirs@.last());
        }
    }

    /// Add one library to link against.
    pub fn cc_link_lib(&mut self, name: &str)
        ensures
            final(self)@ == (BuildView {
                cc_link_libs: old(self)@.cc_link_libs.push(name@),
                ..old(self)@
            }),
    {
        let ghost pre = *self;
        self.cc_link_libs.push(name.to_owned());
        proof {
            lemma_vec_push_deep_view(pre.cc_link_libs, self.cc_link_libs, self.cc_link_libs@.last());
        }
    }

    /// Add one native source file.
    pub fn cc_file(&mut self, file: &str)
        ensures
            final(self)@ == (BuildView { cc_files: old(self)@.cc_files.push(file@), ..old(self)@ }),
    {
        let ghost pre = *self;
        self.cc_files.push(file.to_owned());
        proof {
            lemma_vec_push_deep_view(pre.cc_files, self.cc_files, self.cc_files@.last());
        }
    }

    /// Add one HDL source file.
    pub fn verilog_file(&mut self, file: &str)
        ensures
            final(self)@ == (BuildView {
                verilog_files: old(self)@.verilog_files.push(file@),
                ..old(self)@
            }),
    {
        let ghost pre = *self;
        self.verilog_files.push(file.to_owned());
        proof {
            lemma_vec_push_deep_view(pre.verilog_files, self.verilog_files, self.verilog_files@.last());
        }
    }

    /// Silence the four warning classes that the virtual top and the
    /// generated accessor module are known to trip.
    pub fn default_verilog_warning(&mut self)
        ensures
            final(self)@ == (BuildView {
                verilog_warnings: old(self)@.verilog_warnings.push("BLKANDNBLK"@).push(
                    "PINMISSING"@,
                ).push("STMTDLY"@).push("WIDTH"@),
                ..old(self)@
            }),
    {
        self.verilog_disable_warning("BLKANDNBLK");
        self.verilog_disable_warning("PINMISSING");
        self.verilog_disable_warning("STMTDLY");
        self.verilog_disable_warning("WIDTH");
    }

    /// Generate the accessor module for the configured elements: the
    /// computed output path and the module text are returned for the
    /// caller to write in one operation, and the path joins the HDL
    /// file list.  On a configuration fault nothing changes and no
    /// text is produced.
    pub fn compile_awig(&mut self) -> (r: Result<(String, String), awig::ConfigError>)
        requires
            old(self)@.virtual_top_name is Some,
            old(self)@.out_dir is Some,
            awig::widths_ok(old(self)@.reg),
            awig::widths_ok(old(self)@.mem),
        ensures
            match r {
                Ok(ft) => awig::unique_hids(old(self)@.reg) && awig::unique_hids(old(self)@.mem)
                    && ft.0@ == sp_join(
                    old(self)@.out_dir->0,
                    sp_awig_file_name(old(self)@.virtual_top_name->0),
                ) && ft.1@ == awig::sp_compile_text(
                    old(self)@.virtual_top_name->0,
                    sp_awig_module_name(old(self)@.virtual_top_name->0),
                    "dpi_reg"@,
                    "dpi_mem"@,
                    old(self)@.reg,
                    old(self)@.mem,
                ) && final(self)@ == (BuildView {
                    verilog_files: old(self)@.verilog_files.push(ft.0@),
                    ..old(self)@
                }),
                Err(e) => final(self)@ == old(self)@ && !(awig::unique_hids(old(self)@.reg)
                    && awig::unique_hids(old(self)@.mem)) && ((e
                    == awig::ConfigError::DuplicateRegisterHid) <==> !awig::unique_hids(
                    old(self)@.reg,
                )) && ((e == awig::ConfigError::DuplicateMemoryHid) <==> (awig::unique_hids(
                    old(self)@.reg,
                ) && !awig::unique_hids(old(self)@.mem))),
            },
    {
        let vtop = self.get_virtual_top_name();
        let mut name = vtop.clone();
        name.append("_dpi");
        let mut filename = name.clone();
        filename.append(".v");
        let out = self.get_out_dir();
        let file = path_join(out.as_str(), filename.as_str());
        match awig::compile(
            vtop.as_str(),
            name.as_str(),
            "dpi_reg",
            "dpi_mem",
            &self.reg,
            &self.mem,
        ) {
            Ok(text) => {
                self.verilog_file(file.as_str());
                Ok((file, text))
            },
            Err(e) => Err(e),
        }
    }

    /// The native sources every build compiles: the simulator runtime,
    /// its cross-language support, the rendered virtual top, and the
    /// simulator's output for the wrapped design.
    pub fn default_cc_files(&mut self, root_dir: &str)
        requires
            old(self)@.out_dir is Some,
            old(self)@.virtual_top_name is Some,
        ensures
            final(self)@ == (BuildView {
                cc_files: sp_default_cc_files(old(self)@, root_dir@),
                ..old(self)@
            }),
    {
        let include_dir = path_join(root_dir, "verilator/build/share/verilator/include");
        let out_dir = self.get_out_dir();
        let vtop = self.get_virtual_top_name();
        let f1 = path_join(include_dir.as_str(), "verilated.cpp");
        let f2 = path_join(include_dir.as_str(), "verilated_dpi.cpp");
        let mut n3 = self.tool_name.clone();
        n3.append(".cc");
        let f3 = path_join(out_dir.as_str(), n3.as_str());
        let mut n4 = "V".to_owned();
        n4.append(vtop.as_str());
        n4.append(".cpp");
        let f4 = path_join(out_dir.as_str(), n4.as_str());
        let mut n5 = "V".to_owned();
        n5.append(vtop.as_str());
        n5.append("__Syms.cpp");
        let f5 = path_join(out_dir.as_str(), n5.as_str());
        let mut n6 = "V".to_owned();
        n6.append(vtop.as_str());
        n6.append("__Dpi.cpp");
        let f6 = path_join(out_dir.as_str(), n6.as_str());
        self.cc_file(f1.as_str());
        self.cc_file(f2.as_str());
        self.cc_file(f3.as_str());
        self.cc_file(f4.as_str());
        self.cc_file(f5.as_str());
        self.cc_file(f6.as_str());
    }

    /// The include directories every build searches: the output
    /// directory, the simulator runtime and its standard headers, and
    /// the tool's own headers.
    pub fn default_include_dirs(&mut self, root_dir: &str)
        requires
            old(self)@.out_dir is Some,
        ensures
            final(self)@ == (BuildView {
                cc_include_dirs: sp_default_include_dirs(old(self)@, root_dir@),
                ..old(self)@
            }),
    {
        let include_dir = path_join(root_dir, "include/lastlayer");
        let verilator_dir = path_join(root_dir, "verilator/build/share/verilator/include");
        let out_dir = self.get_out_dir();
        let vltstd = path_join(verilator_dir.as_str(), "vltstd");
        self.cc_include_dir(out_dir.as_str());
        self.cc_include_dir(verilator_dir.as_str());
        self.cc_include_dir(vltstd.as_str());
        self.cc_include_dir(include_dir.as_str());
    }

    /// The argument list handed to the simulator binary: emit native
    /// sources into the output directory for the virtual top, with
    /// runtime assertions on, searching the configured include
    /// directories over the configured HDL files, warnings silenced as
    /// configured.
    pub fn verilator_args(&self) -> (r: Vec<String>)
        requires
            self@.out_dir is Some,
            self@.virtual_top_name is Some,
        ensures
            r.deep_view() == sp_verilator_args(self@),
    {
        let mut args: Vec<String> = Vec::new();
        push_string(&mut args, "--cc".to_owned());
        push_string(&mut args, "-Mdir".to_owned());
        push_string(&mut args, self.get_out_dir());
        push_string(&mut args, "--top-module".to_owned());
        push_string(&mut args, self.get_virtual_top_name());
        push_string(&mut args, "--assert".to_owned());
        let ghost base = args.deep_view();
        proof {
            assert(base =~= seq![
                "--cc"@,
                "-Mdir"@,
                self@.out_dir->0,
                "--top-module"@,
                self@.virtual_top_name->0,
                "--assert"@,
            ]);
        }
        let mut i: usize = 0;
        proof {
            assert(args.deep_view() =~= base + sp_dash_i(self@.verilog_include_dirs.take(0)));
        }
        while i < self.verilog_include_dirs.len()
            invariant
                i <= self.verilog_include_dirs.len(),
                self@.verilog_include_dirs.len() == self.verilog_include_dirs.len(),
                args.deep_view() == base + sp_dash_i(self@.verilog_include_dirs.take(i as int)),
            decreases self.verilog_include_dirs.len() - i,
        {
            let mut s = "-I".to_owned();
            s.append(self.verilog_include_dirs[i].as_str());
            push_string(&mut args, s);
            proof {
                assert(self@.verilog_include_dirs[i as int] == self.verilog_include_dirs@[i as int]@);
                assert(args.deep_view() =~= base + sp_dash_i(
                    self@.verilog_include_dirs.take(i + 1),
                ));
            }
            i = i + 1;
        }
        proof {
            assert(self@.verilog_include_dirs.take(self.verilog_include_dirs.len() as int)
                =~= self@.verilog_include_dirs);
        }
        let ghost base2 = args.deep_view();
        let mut j: usize = 0;
        proof {
            assert(args.deep_view() =~= base2 + self@.verilog_files.take(0));
        }
        while j < self.verilog_files.len()
            invariant
                j <= self.verilog_files.len(),
                self@.verilog_files.len() == self.verilog_files.len(),
                args.deep_view() == base2 + self@.verilog_files.take(j as int),
            decreases self.verilog_files.len() - j,
        {
            push_string(&mut args, self.verilog_files[j].clone());
            proof {
                assert(self@.verilog_files[j as int] == self.verilog_files@[j as int]@);
                assert(args.deep_view() =~= base2 + self@.verilog_files.take(j + 1));
            }
            j = j + 1;
        }
        proof {
            assert(self@.verilog_files.take(self.verilog_files.len() as int)
                =~= self@.verilog_files);
        }
        let ghost base3 = args.deep_view();
        let mut k: usize = 0;
        proof {
            assert(args.deep_view() =~= base3 + sp_dash_wno(self@.verilog_warnings.take(0)));
        }
        while k < self.verilog_warnings.len()
            invariant
                k <= self.verilog_warnings.len(),
                self@.verilog_warnings.len() == self.verilog_warnings.len(),
                args.deep_view() == base3 + sp_dash_wno(self@.verilog_warnings.take(k as int)),
            decreases self.verilog_warnings.len() - k,
        {
            let mut s = "-Wno-".to_owned();
            s.append(self.verilog_warnings[k].as_str());
            push_string(&mut args, s);
            proof {
                assert(self@.verilog_warnings[k as int] == self.verilog_warnings@[k as int]@);
                assert(args.deep_view() =~= base3 + sp_dash_wno(
                    self@.verilog_warnings.take(k + 1),
                ));
            }
            k = k + 1;
        }
        proof {
            assert(self@.verilog_warnings.take(self.verilog_warnings.len() as int)
                =~= self@.verilog_warnings);
            assert(args.deep_view() =~= sp_verilator_args(self@));
        }
        args
    }

    /// The argument list handed to the native compiler: a
    /// position-independent shared library from the configured include
    /// directories, link directories, libraries, flags and sources,
    /// written beside the other outputs as `lib<name>.so`.
    pub fn cxx_args(&self, name: &str) -> (r: Vec<String>)
        requires
            self@.out_dir is Some,
        ensures
            r.deep_view() == sp_cxx_args(self@, name@),
    {
        let mut args: Vec<String> = Vec::new();
        push_string(&mut args, "-shared".to_owned());
        push_string(&mut args, "-faligned-new".to_owned());
        push_string(&mut args, "-shared".to_owned());
        push_string(&mut args, "-fPIC".to_owned());
        let ghost base = args.deep_view();
        proof {
            assert(base =~= seq!["-shared"@, "-faligned-new"@, "-shared"@, "-fPIC"@]);
        }
        let mut i: usize = 0;
        proof {
            assert(args.deep_view() =~= base + sp_dash_pairs(
                "-I"@,
                self@.cc_include_dirs.take(0),
            ));
        }
        while i < self.cc_include_dirs.len()
            invariant
                i <= self.cc_include_dirs.len(),
                self@.cc_include_dirs.len() == self.cc_include_dirs.len(),
                args.deep_view() == base + sp_dash_pairs(
                    "-I"@,
                    self@.cc_include_dirs.take(i as int),
                ),
            decreases self.cc_include_dirs.len() - i,
        {
            push_string(&mut args, "-I".to_owned());
            push_string(&mut args, self.cc_include_dirs[i].clone());
            proof {
                assert(self@.cc_include_dirs[i as int] == self.cc_include_dirs@[i as int]@);
                assert(self@.cc_include_dirs.take(i + 1).drop_last() =~= self@.cc_include_dirs.take(
                    i as int,
                ));
                assert(args.deep_view() =~= base + sp_dash_pairs(
                    "-I"@,
                    self@.cc_include_dirs.take(i + 1),
                ));
            }
            i = i + 1;
        }
        proof {
            assert(self@.cc_include_dirs.take(self.cc_include_dirs.len() as int)
                =~= self@.cc_include_dirs);
        }
        let ghost base2 = args.deep_view();
        let mut j: usize = 0;
        proof {
            assert(args.deep_view() =~= base2 + sp_dash_pairs("-L"@, self@.cc_link_dirs.take(0)));
        }
        while j < self.cc_link_dirs.len()
            invariant
                j <= self.cc_link_dirs.len(),
                self@.cc_link_dirs.len() == self.cc_link_dirs.len(),
                args.deep_view() == base2 + sp_dash_pairs("-L"@, self@.cc_link_dirs.take(j as int)),
            decreases self.cc_link_dirs.len() - j,
        {
            push_string(&mut args, "-L".to_owned());
            push_string(&mut args, self.cc_link_dirs[j].clone());
            proof {
                assert(self@.cc_link_dirs[j as int] == self.cc_link_dirs@[j as int]@);
                assert(self@.cc_link_dirs.take(j + 1).drop_last() =~= self@.cc_link_dirs.take(
                    j as int,
                ));
                assert(args.deep_view() =~= base2 + sp_dash_pairs(
                    "-L"@,
                    self@.cc_link_dirs.take(j + 1),
                ));
            }
            j = j + 1;
        }
        proof {
            assert(self@.cc_link_dirs.take(self.cc_link_dirs.len() as int) =~= self@.cc_link_dirs);
        }
        let ghost base3 = args.deep_view();
        let mut k: usize = 0;
        proof {
            assert(args.deep_view() =~= base3 + sp_dash_l(self@.cc_link_libs.take(0)));
        }
        while k < self.cc_link_libs.len()
            invariant
                k <= self.cc_link_libs.len(),
                self@.cc_link_libs.len() == self.cc_link_libs.len(),
                args.deep_view() == base3 + sp_dash_l(self@.cc_link_libs.take(k as int)),
            decreases self.cc_link_libs.len() - k,
        {
            let mut s = "-l".to_owned();
            s.append(self.cc_link_libs[k].as_str());
            push_string(&mut args, s);
            proof {
                assert(self@.cc_link_libs[k as int] == self.cc_link_libs@[k as int]@);
                assert(args.deep_view() =~= base3 + sp_dash_l(self@.cc_link_libs.take(k + 1)));
            }
            k = k + 1;
        }
        proof {
            assert(self@.cc_link_libs.take(self.cc_link_libs.len() as int) =~= self@.cc_link_libs);
        }
        let ghost base4 = args.deep_view();
        let mut m: usize = 0;
        proof {
            assert(args.deep_view() =~= base4 + self@.cc_flags.take(0));
        }
        while m < self.cc_flags.len()
            invariant
                m <= self.cc_flags.len(),
                self@.cc_flags.len() == self.cc_flags.len(),
                args.deep_view() == base4 + self@.cc_flags.take(m as int),
            decreases self.cc_flags.len() - m,
        {
            push_string(&mut args, self.cc_flags[m].clone());
            proof {
                assert(self@.cc_flags[m as int] == self.cc_flags@[m as int]@);
                assert(args.deep_view() =~= base4 + self@.cc_flags.take(m + 1));
            }
            m = m + 1;
        }
        proof {
            assert(self@.cc_flags.take(self.cc_flags.len() as int) =~= self@.cc_flags);
        }
        let ghost base5 = args.deep_view();
        let mut n: usize = 0;
        proof {
            assert(args.deep_view() =~= base5 + self@.cc_files.take(0));
        }
        while n < self.cc_files.len()
            invariant
                n <= self.cc_files.len(),
                self@.cc_files.len() == self.cc_files.len(),
                args.deep_view() == base5 + self@.cc_files.take(n as int),
            decreases self.cc_files.len() - n,
        {
            push_string(&mut args, self.cc_files[n].clone());
            proof {
                assert(self@.cc_files[n as int] == self.cc_files@[n as int]@);
                assert(args.deep_view() =~= base5 + self@.cc_files.take(n + 1));
            }
            n = n + 1;
        }
        proof {
            assert(self@.cc_files.take(self.cc_files.len() as int) =~= self@.cc_files);
        }
        push_string(&mut args, "-o".to_owned());
        let mut lib = "lib".to_owned();
        lib.append(name);
        lib.append(".so");
        let out = self.get_out_dir();
        push_string(&mut args, path_join(out.as_str(), lib.as_str()));
        proof {
            assert(args.deep_view() =~= sp_cxx_args(self@, name@));
        }
        args
    }

    /// Add one HDL include directory.
    pub fn verilog_include_dir(&mut self, dir: &str)
        ensures
            final(self)@ == (BuildView {
                verilog_include_dirs: old(self)@.verilog_include_dirs.push(dir@),
                ..old(self)@
            }),
    {
        let ghost pre = *self;
        self.verilog_include_dirs.push(dir.to_owned());
        proof {
            lemma_vec_push_deep_view(
                pre.verilog_include_dirs,
                self.verilog_include_dirs,
                self.verilog_include_dirs@.last(),
            );
        }
    }
}

} // verus!
