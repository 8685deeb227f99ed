use lastlayer::{verilator, Build};

#[test]
fn compile_awig_returns_path_and_module_text() {
    let mut b = Build::new("/opt/tool");
    b.top_module("adder");
    b.out_dir("out");
    b.add_register(0, "a.b", 8);
    b.add_memory(0, "ram", 64);
    let (file, text) = b.compile_awig().unwrap();
    assert_eq!(file, "out/lastlayer_adder_dpi.v");
    assert!(text.starts_with("module lastlayer_adder_dpi;\n"));
    assert!(text.contains("function int lastlayer_adder_a_b_read;"));
    assert!(text.contains("lastlayer_adder.ram[addr]"));
    assert!(text.contains("export \"DPI-C\" function dpi_reg_read;"));
}

#[test]
fn compile_awig_rejects_duplicate_ids_without_touching_the_build() {
    let mut b = Build::new("/opt/tool");
    b.top_module("adder");
    b.out_dir("out");
    b.add_register(3, "a", 8);
    b.add_register(3, "b", 8);
    assert!(b.compile_awig().is_err());
}

#[test]
fn verilator_args_list_the_configuration() {
    let mut b = Build::new("/root/tool");
    b.top_module("relu");
    b.out_dir("build/out");
    b.verilog_file("design.v");
    b.verilog_include_dir("rtl/include");
    b.default_verilog_warning();
    let args = b.verilator_args();
    assert_eq!(
        args,
        vec![
            "--cc",
            "-Mdir",
            "build/out",
            "--top-module",
            "lastlayer_relu",
            "--assert",
            "-Irtl/include",
            "design.v",
            "-Wno-BLKANDNBLK",
            "-Wno-PINMISSING",
            "-Wno-STMTDLY",
            "-Wno-WIDTH",
        ]
    );
}

#[test]
fn cxx_args_list_the_configuration() {
    let mut b = Build::new("/root/tool");
    b.top_module("relu");
    b.out_dir("out");
    b.cc_include_dir("inc");
    b.cc_link_dir("libs");
    b.cc_link_lib("m");
    b.cc_flag("-O2");
    b.cc_file("sim.cc");
    let args = b.cxx_args("relu");
    assert_eq!(
        args,
        vec![
            "-shared",
            "-faligned-new",
            "-shared",
            "-fPIC",
            "-I",
            "inc",
            "-L",
            "libs",
            "-lm",
            "-O2",
            "sim.cc",
            "-o",
            "out/librelu.so",
        ]
    );
}

#[test]
fn default_file_lists_follow_the_root_and_output_dirs() {
    let mut b = Build::new("/root/tool");
    b.top_module("top");
    b.out_dir("out");
    b.default_cc_files("/root/tool");
    b.default_include_dirs("/root/tool");
    let args = b.cxx_args("top");
    let inc = "/root/tool/verilator/build/share/verilator/include";
    assert!(args.contains(&format!("{}/verilated.cpp", inc)));
    assert!(args.contains(&format!("{}/verilated_dpi.cpp", inc)));
    assert!(args.contains(&"out/lastlayer.cc".to_string()));
    assert!(args.contains(&"out/Vlastlayer_top.cpp".to_string()));
    assert!(args.contains(&"out/Vlastlayer_top__Syms.cpp".to_string()));
    assert!(args.contains(&"out/Vlastlayer_top__Dpi.cpp".to_string()));
    assert!(args.contains(&format!("{}/vltstd", inc)));
    assert!(args.contains(&"/root/tool/include/lastlayer".to_string()));
}

#[test]
fn plain_simulator_build_args() {
    let mut b = verilator::Build::new("/root/tool");
    b.top_module("relu");
    b.out_dir("out");
    b.verilog_file("relu.v");
    b.disable_warning("WIDTH");
    b.dpi_flag(true);
    let args = b.verilator_args();
    assert_eq!(
        args,
        vec!["--cc", "-Mdir", "out", "--top-module", "__relu", "relu.v", "-Wno-WIDTH"]
    );
}
